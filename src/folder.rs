use vstd::prelude::*;

use crate::file::File;
use crate::text::{folder_line, folder_line_string, indentation, indentation_string};

verus! {

/// A node of the tree: a file, or a folder that holds further nodes.
pub enum FileSystemItem {
    File(File),
    Folder(Folder),
}

/// A node that holds other nodes, in the order in which they were added.
pub struct Folder {
    name: String,
    items: Vec<FileSystemItem>,
}

/// The total size of a sequence of nodes.
pub open spec fn items_size(items: Seq<FileSystemItem>) -> nat
    decreases items,
{
    if items.len() == 0 {
        0
    } else {
        items_size(items.drop_last()) + items.last().spec_size()
    }
}

/// The display lines of a sequence of nodes at indentation `level`, one node after the other.
pub open spec fn items_lines(items: Seq<FileSystemItem>, level: nat) -> Seq<Seq<char>>
    decreases items,
{
    if items.len() == 0 {
        Seq::empty()
    } else {
        items_lines(items.drop_last(), level) + items.last().spec_lines(level)
    }
}

impl FileSystemItem {
    /// The size of a node: a file's own size, or the total size of a folder's contents.
    pub open spec fn spec_size(&self) -> nat
        decreases self,
    {
        match self {
            FileSystemItem::File(f) => f.spec_size(),
            FileSystemItem::Folder(d) => d.spec_size(),
        }
    }

    /// The display lines of a node at indentation `level`.
    pub open spec fn spec_lines(&self, level: nat) -> Seq<Seq<char>>
        decreases self,
    {
        match self {
            FileSystemItem::File(f) => seq![f.spec_line(level)],
            FileSystemItem::Folder(d) => d.spec_lines(level),
        }
    }

    /// The size of this node.
    pub fn get_size(&self) -> (r: usize)
        requires
            self.spec_size() <= usize::MAX,
        ensures
            r == self.spec_size(),
        decreases self,
    {
        match self {
            FileSystemItem::File(f) => f.get_size(),
            FileSystemItem::Folder(d) => d.get_size(),
        }
    }

    /// The display lines of this node at indentation `indent`.
    pub fn display(&self, indent: usize) -> (r: Vec<String>)
        ensures
            r.deep_view() == self.spec_lines(indent as nat),
    {
        let prefix = indentation_string(indent);
        let mut out: Vec<String> = Vec::new();
        self.render_into(&prefix, Ghost(indent as nat), &mut out);
        assert(out.deep_view() =~= self.spec_lines(indent as nat));
        out
    }

    fn render_into(&self, prefix: &String, Ghost(level): Ghost<nat>, out: &mut Vec<String>)
        requires
            prefix@ == indentation(level),
        ensures
            final(out).deep_view() == old(out).deep_view() + self.spec_lines(level),
        decreases self,
    {
        match self {
            FileSystemItem::File(f) => {
                f.render_into(prefix, Ghost(level), out);
            },
            FileSystemItem::Folder(d) => {
                d.render_into(prefix, Ghost(level), out);
            },
        }
    }
}

impl Folder {
    /// The name given at construction.
    pub closed spec fn spec_name(&self) -> Seq<char> {
        self.name@
    }

    /// The contents, in the order in which they were added.
    pub closed spec fn spec_items(&self) -> Seq<FileSystemItem> {
        self.items@
    }

    /// The size of a folder: the total size of its contents.
    pub open spec fn spec_size(&self) -> nat
        decreases self,
        via Self::size_decreases
    {
        items_size(self.spec_items())
    }

    #[via_fn]
    proof fn size_decreases(&self) {
        assert(decreases_to!(self => self.items));
    }

    /// The display lines of a folder at indentation `level`: its own line, then the lines of
    /// each item in order, one level deeper.
    pub open spec fn spec_lines(&self, level: nat) -> Seq<Seq<char>>
        decreases self,
        via Self::lines_decreases
    {
        seq![folder_line(level, self.spec_name())] + items_lines(self.spec_items(), level + 1)
    }

    #[via_fn]
    proof fn lines_decreases(&self, level: nat) {
        assert(decreases_to!(self => self.items));
    }

    /// Makes an empty folder with the given name.
    pub fn new(name: &str) -> (r: Self)
        ensures
            r.spec_name() == name@,
            r.spec_items() == Seq::<FileSystemItem>::empty(),
    {
        Folder { name: String::from_str(name), items: Vec::new() }
    }

    /// Adds `item` after the items already in this folder.
    pub fn add_item(&mut self, item: FileSystemItem)
        ensures
            final(self).spec_name() == old(self).spec_name(),
            final(self).spec_items() == old(self).spec_items().push(item),
    {
        self.items.push(item);
    }

    /// The total size of the contents, computed anew on each call.
    pub fn get_size(&self) -> (r: usize)
        requires
            self.spec_size() <= usize::MAX,
        ensures
            r == self.spec_size(),
        decreases self,
    {
        let mut total: usize = 0;
        let mut i: usize = 0;
        while i < self.items.len()
            invariant
                i <= self.items@.len(),
                items_size(self.items@) <= usize::MAX,
                total == items_size(self.items@.take(i as int)),
            decreases self.items@.len() - i,
        {
            proof {
                lemma_items_size_step(self.items@, i as int);
                lemma_items_size_prefix(self.items@, i as int + 1);
                assert(decreases_to!(self => self.items@[i as int]));
            }
            let s = self.items[i].get_size();
            total = total + s;
            i = i + 1;
        }
        assert(self.items@.take(i as int) =~= self.items@);
        total
    }

    /// The display lines of this folder and everything in it, from indentation `indent`.
    pub fn display(&self, indent: usize) -> (r: Vec<String>)
        ensures
            r.deep_view() == self.spec_lines(indent as nat),
    {
        let prefix = indentation_string(indent);
        let mut out: Vec<String> = Vec::new();
        self.render_into(&prefix, Ghost(indent as nat), &mut out);
        assert(out.deep_view() =~= self.spec_lines(indent as nat));
        out
    }

    pub(crate) fn render_into(&self, prefix: &String, Ghost(level): Ghost<nat>, out: &mut Vec<String>)
        requires
            prefix@ == indentation(level),
        ensures
            final(out).deep_view() == old(out).deep_view() + self.spec_lines(level),
        decreases self,
    {
        let ghost start = out.deep_view();
        let line = folder_line_string(prefix, &self.name, Ghost(level));
        out.push(line);
        let mut inner = prefix.clone();
        inner.append("  ");
        assert(inner@ == indentation(level + 1));
        assert(out.deep_view() =~= start + seq![folder_line(level, self.name@)]);
        let mut i: usize = 0;
        while i < self.items.len()
            invariant
                i <= self.items@.len(),
                inner@ == indentation(level + 1),
                out.deep_view() == start + seq![folder_line(level, self.name@)] + items_lines(
                    self.items@.take(i as int),
                    level + 1,
                ),
            decreases self.items@.len() - i,
        {
            proof {
                lemma_items_lines_step(self.items@, i as int, level + 1);
                assert(decreases_to!(self => self.items@[i as int]));
            }
            self.items[i].render_into(&inner, Ghost(level + 1), out);
            proof {
                vstd::seq_lib::lemma_concat_associative(
                    start + seq![folder_line(level, self.name@)],
                    items_lines(self.items@.take(i as int), level + 1),
                    self.items@[i as int].spec_lines(level + 1),
                );
            }
            i = i + 1;
        }
        assert(self.items@.take(i as int) =~= self.items@);
        assert(out.deep_view() =~= start + self.spec_lines(level));
    }
}

/// Taking one more item adds that item's size.
pub proof fn lemma_items_size_step(items: Seq<FileSystemItem>, i: int)
    requires
        0 <= i < items.len(),
    ensures
        items_size(items.take(i + 1)) == items_size(items.take(i)) + items[i].spec_size(),
{
    assert(items.take(i + 1).drop_last() =~= items.take(i));
}

/// A prefix of a sequence of items is no larger than the whole.
pub proof fn lemma_items_size_prefix(items: Seq<FileSystemItem>, i: int)
    requires
        0 <= i <= items.len(),
    ensures
        items_size(items.take(i)) <= items_size(items),
    decreases items.len(),
{
    if i == items.len() {
        assert(items.take(i) =~= items);
    } else {
        lemma_items_size_prefix(items.drop_last(), i);
        assert(items.drop_last().take(i) =~= items.take(i));
    }
}

/// Taking one more item adds that item's lines.
pub proof fn lemma_items_lines_step(items: Seq<FileSystemItem>, i: int, level: nat)
    requires
        0 <= i < items.len(),
    ensures
        items_lines(items.take(i + 1), level) == items_lines(items.take(i), level)
            + items[i].spec_lines(level),
{
    assert(items.take(i + 1).drop_last() =~= items.take(i));
}

} // verus!
