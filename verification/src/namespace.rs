//! The three namespaces of device settings and the command that lists each.

use vstd::prelude::*;
use vstd::string::StringExecFns;

verus! {

/// A namespace of device settings. There are exactly three, and they are retrieved in the
/// order in which they stand here.
#[derive(Clone, Copy, Debug, PartialEq, Eq, Structural, Hash)]
pub enum Namespace {
    System,
    Secure,
    Global,
}

/// The namespaces in the order of retrieval.
pub open spec fn retrieval_order() -> Seq<Namespace> {
    seq![Namespace::System, Namespace::Secure, Namespace::Global]
}

impl Namespace {
    /// The namespace's name on the device.
    pub open spec fn name_spec(self) -> Seq<char> {
        match self {
            Namespace::System => "system"@,
            Namespace::Secure => "secure"@,
            Namespace::Global => "global"@,
        }
    }

    /// The command that lists the namespace's settings.
    pub open spec fn command_spec(self) -> Seq<char> {
        "settings list "@ + self.name_spec()
    }

    /// The namespaces in the order of retrieval.
    pub fn all() -> (order: [Namespace; 3])
        ensures
            order@ == retrieval_order(),
    {
        let order = [Namespace::System, Namespace::Secure, Namespace::Global];
        assert(order@ =~= retrieval_order());
        order
    }

    /// The namespace's name on the device.
    pub fn name(self) -> (name: &'static str)
        ensures
            name@ == self.name_spec(),
    {
        match self {
            Namespace::System => "system",
            Namespace::Secure => "secure",
            Namespace::Global => "global",
        }
    }

    /// The command that lists the namespace's settings.
    pub fn command(self) -> (command: String)
        ensures
            command@ == self.command_spec(),
    {
        String::from_str("settings list ").concat(self.name())
    }
}

/// No two namespaces share a name, nor a command.
pub proof fn lemma_names_distinct(a: Namespace, b: Namespace)
    ensures
        a.name_spec() == b.name_spec() ==> a == b,
        a.command_spec() == b.command_spec() ==> a == b,
{
    reveal_strlit("system");
    reveal_strlit("secure");
    reveal_strlit("global");
    assert("system"@[1] == 'y' && "secure"@[1] == 'e' && "secure"@[0] == 's' && "global"@[0] == 'g');
    let prefix = "settings list "@;
    assert(a.command_spec().skip(prefix.len() as int) =~= a.name_spec());
    assert(b.command_spec().skip(prefix.len() as int) =~= b.name_spec());
}

} // verus!
