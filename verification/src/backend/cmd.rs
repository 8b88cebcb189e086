use vstd::prelude::*;

verus! {

/// A stored command of the first prototype: an identifier, a tag and a note.
pub struct Cmd {
    id: u32,
    tag: String,
    note: String,
}

impl Cmd {
    pub closed spec fn spec_id(&self) -> u32 {
        self.id
    }

    pub closed spec fn spec_tag(&self) -> Seq<char> {
        self.tag@
    }

    pub closed spec fn spec_note(&self) -> Seq<char> {
        self.note@
    }

    /// Builds a command from its three parts.
    pub fn new(id: u32, tag: String, note: String) -> (cmd: Self)
        ensures
            cmd.spec_id() == id,
            cmd.spec_tag() == tag@,
            cmd.spec_note() == note@,
    {
        Cmd { id, tag, note }
    }
}

} // verus!
