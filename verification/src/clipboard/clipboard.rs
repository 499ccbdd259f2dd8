use crate::clipboard::traits::ClipboardManager;
use vstd::prelude::*;
use vstd::string::*;

verus! {

/// A sink that keeps every text it is handed, for inspection afterwards.
pub struct MockClipboardManager {
    texts: Vec<String>,
}

impl MockClipboardManager {
    /// The view of the kept texts.
    pub closed spec fn texts(&self) -> Seq<Seq<char>> {
        Seq::new(self.texts@.len(), |i: int| self.texts@[i]@)
    }

    /// A sink that has been handed nothing yet.
    pub fn new() -> (sink: Self)
        ensures
            sink.texts() == Seq::<Seq<char>>::empty(),
    {
        let sink = MockClipboardManager { texts: Vec::new() };
        assert(sink.texts() =~= Seq::<Seq<char>>::empty());
        sink
    }

    /// How many texts were handed over.
    pub fn count(&self) -> (n: usize)
        ensures
            n == self.texts().len(),
    {
        self.texts.len()
    }

    /// The `index`-th text handed over, counting from zero.
    pub fn text(&self, index: usize) -> (text: Option<String>)
        ensures
            index < self.texts().len() ==> {
                &&& text.is_some()
                &&& text.unwrap()@ == self.texts()[index as int]
            },
            index >= self.texts().len() ==> text.is_none(),
    {
        if index < self.texts.len() {
            Some(self.texts[index].clone())
        } else {
            None
        }
    }
}

impl ClipboardManager for MockClipboardManager {
    open spec fn keeps_account(&self) -> bool {
        true
    }

    open spec fn copied(&self) -> Seq<Seq<char>> {
        self.texts()
    }

    fn copy_to_clipboard(&mut self, text: &str) {
        self.texts.push(String::from_str(text));
        assert(self.texts() =~= old(self).texts().push(text@));
    }
}

} // verus!
