//! The external tools the operations lean on. Probing for them runs child
//! processes in the surrounding application; the judgment — which missing
//! tool is reported, and in which order — is fixed here.

use vstd::prelude::*;
use vstd::string::StringExecFns;

use crate::error::{KawsError, KawsErrorKind, KawsResult};

verus! {

/// Demands the CA tool, the cluster CLI and the infrastructure tool, in that
/// order: the first one missing is the error.
pub fn ensure_dependencies(
    cfssl_installed: bool,
    kubectl_installed: bool,
    terraform_installed: bool,
) -> (r: KawsResult)
    ensures
        cfssl_installed && kubectl_installed && terraform_installed ==> (r matches Ok(m)
            && m is None),
        !cfssl_installed ==> (r matches Err(e) && e.kind == KawsErrorKind::General && e.message@
            == "cfssl must be installed"@),
        cfssl_installed && !kubectl_installed ==> (r matches Err(e) && e.kind
            == KawsErrorKind::General && e.message@ == "kubectl must be installed"@),
        cfssl_installed && kubectl_installed && !terraform_installed ==> (r matches Err(e)
            && e.kind == KawsErrorKind::General && e.message@ == "terraform must be installed"@),
{
    if !cfssl_installed {
        Err(KawsError::new(String::from_str("cfssl must be installed")))
    } else if !kubectl_installed {
        Err(KawsError::new(String::from_str("kubectl must be installed")))
    } else if !terraform_installed {
        Err(KawsError::new(String::from_str("terraform must be installed")))
    } else {
        Ok(None)
    }
}

} // verus!
