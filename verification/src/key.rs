//! Exporting an operator's OpenPGP public key: the exact invocation of the
//! keyring tool and the message shown afterwards. Running the tool is the
//! surrounding application's work.

use vstd::prelude::*;
use vstd::string::StringExecFns;

verus! {

/// An operator key, named by the user id under which the keyring holds it.
pub struct Key {
    pub uid: String,
}

/// The planned export: the arguments for the keyring tool and the message
/// for the operator once the tool has succeeded.
pub struct KeyExport {
    pub args: Vec<String>,
    pub message: String,
}

/// Where the exported key goes: `pubkeys/{uid}.asc`.
pub open spec fn export_path(uid: Seq<char>) -> Seq<char> {
    "pubkeys/"@ + uid + ".asc"@
}

/// The message once the export succeeded.
pub open spec fn export_message(uid: Seq<char>) -> Seq<char> {
    "OpenPGP public key exported to pubkeys/"@ + uid
        + ".asc! Check this file into Git."@
}

impl Key {
    pub fn new(uid: String) -> (r: Key)
        ensures
            r.uid@ == uid@,
    {
        Key { uid }
    }

    /// Plans the export: an armored export of this uid into
    /// `pubkeys/{uid}.asc`, and the message for the operator.
    pub fn export(&self) -> (r: KeyExport)
        ensures
            r.args.deep_view() =~= seq![
                "--output"@,
                export_path(self.uid@),
                "--armor"@,
                "--export"@,
                self.uid@,
            ],
            r.message@ == export_message(self.uid@),
    {
        let mut path = String::from_str("pubkeys/");
        path.append(self.uid.as_str());
        path.append(".asc");
        let mut message = String::from_str("OpenPGP public key exported to pubkeys/");
        message.append(self.uid.as_str());
        message.append(".asc! Check this file into Git.");
        let mut args: Vec<String> = Vec::new();
        args.push(String::from_str("--output"));
        args.push(path);
        args.push(String::from_str("--armor"));
        args.push(String::from_str("--export"));
        args.push(self.uid.clone());
        KeyExport { args, message }
    }
}

} // verus!
