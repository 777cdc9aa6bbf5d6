use vstd::prelude::*;
use vstd::string::StringSliceAdditionalSpecFns;
use vstd::utf8::encode_utf8;

use crate::text::{file_line, file_line_string, indentation, indentation_string};

verus! {

/// A leaf of the tree: a named piece of text whose size is fixed when it is made.
pub struct File {
    name: String,
    size: usize,
    content: String,
}

impl File {
    /// The stored size is always the length of the content in UTF-8.
    #[verifier::type_invariant]
    spec fn size_matches_content(&self) -> bool {
        self.size == encode_utf8(self.content@).len()
    }

    /// The name given at construction.
    pub closed spec fn spec_name(&self) -> Seq<char> {
        self.name@
    }

    /// The content given at construction.
    pub closed spec fn spec_content(&self) -> Seq<char> {
        self.content@
    }

    /// The size of a file: the number of bytes of its content in UTF-8.
    pub open spec fn spec_size(&self) -> nat {
        encode_utf8(self.spec_content()).len()
    }

    /// The one display line of this file at indentation `level`.
    pub open spec fn spec_line(&self, level: nat) -> Seq<char> {
        file_line(level, self.spec_name(), self.spec_size())
    }

    /// Makes a file with the given name and content; its size is the content's length in bytes.
    pub fn new(name: &str, content: &str) -> (r: Self)
        ensures
            r.spec_name() == name@,
            r.spec_content() == content@,
            r.spec_size() == content.spec_bytes().len(),
    {
        let size = content.as_bytes().len();
        File { name: String::from_str(name), size, content: String::from_str(content) }
    }

    /// The size fixed at construction.
    pub fn get_size(&self) -> (r: usize)
        ensures
            r == self.spec_size(),
    {
        proof {
            use_type_invariant(self);
        }
        self.size
    }

    /// The display line at indentation `indent`.
    pub fn display(&self, indent: usize) -> (r: Vec<String>)
        ensures
            r.deep_view() == seq![self.spec_line(indent as nat)],
    {
        let prefix = indentation_string(indent);
        let mut out: Vec<String> = Vec::new();
        self.render_into(&prefix, Ghost(indent as nat), &mut out);
        assert(out.deep_view() =~= seq![self.spec_line(indent as nat)]);
        out
    }

    /// Appends the display line, given the indentation in front of it.
    pub(crate) fn render_into(&self, prefix: &String, Ghost(level): Ghost<nat>, out: &mut Vec<String>)
        requires
            prefix@ == indentation(level),
        ensures
            final(out).deep_view() == old(out).deep_view().push(self.spec_line(level)),
    {
        let size = self.get_size();
        let line = file_line_string(prefix, &self.name, size, Ghost(level));
        out.push(line);
        assert(out.deep_view() =~= old(out).deep_view().push(self.spec_line(level)));
    }
}

} // verus!
