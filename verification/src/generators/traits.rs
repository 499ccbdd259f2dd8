use vstd::prelude::*;

verus! {

/// A derivation strategy.
///
/// A strategy that `obeys_derived` returns, for a secret and a service, the
/// password that `derived` names: its output depends on the two inputs
/// alone. A strategy written outside verified code leaves both functions as
/// they are here, and nothing is then claimed of what it returns.
pub trait PasswordGenerator {
    /// Whether `generate` returns what `derived` says.
    open spec fn obeys_derived(&self) -> bool {
        false
    }

    /// The password this strategy derives for a secret and a service.
    open spec fn derived(&self, secret: Seq<char>, service: Seq<char>) -> Seq<char> {
        Seq::empty()
    }

    fn generate(&self, secret: &str, service: &str) -> (password: String)
        ensures
            self.obeys_derived() ==> password@ == self.derived(secret@, service@),
    ;
}

} // verus!
