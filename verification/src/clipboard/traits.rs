use vstd::prelude::*;

verus! {

/// A sink for text that the user asked to copy.
///
/// A sink that `keeps_account` adds each text it is handed to `copied`, and
/// goes on keeping account. A sink written outside verified code leaves both
/// functions as they are here, and nothing is then claimed of it.
pub trait ClipboardManager {
    /// Whether `copied` is this sink's account of what it was handed.
    open spec fn keeps_account(&self) -> bool {
        false
    }

    /// The texts handed to this sink so far, oldest first.
    open spec fn copied(&self) -> Seq<Seq<char>> {
        Seq::empty()
    }

    fn copy_to_clipboard(&mut self, text: &str)
        ensures
            old(self).keeps_account() ==> {
                &&& final(self).keeps_account()
                &&& final(self).copied() == old(self).copied().push(text@)
            },
    ;
}

} // verus!
