use vstd::prelude::*;

verus! {

/// The name of a tool that is given another name. A tool of a server carries the
/// server's name in front.
#[derive(Debug, Clone, PartialEq, Eq, Hash)]
pub struct OriginalToolName(pub String);

impl View for OriginalToolName {
    type V = Seq<char>;

    open spec fn view(&self) -> Seq<char> {
        self.0@
    }
}

impl core::ops::Deref for OriginalToolName {
    type Target = String;

    /// The name as a string.
    fn deref(&self) -> (s: &String)
        ensures
            s@ == self@,
    {
        &self.0
    }
}

impl OriginalToolName {
    /// The name as a string slice.
    pub fn borrow(&self) -> (s: &str)
        ensures
            s@ == self@,
    {
        self.0.as_str()
    }
}

} // verus!
