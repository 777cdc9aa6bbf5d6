use vstd::prelude::*;
use vstd::string::StringSliceAdditionalSpecFns;
use vstd::utf8::{encode_utf8, is_ascii_chars, is_ascii_chars_encode_utf8};

use crate::file::File;
use crate::folder::{FileSystemItem, Folder, items_lines, items_size};

verus! {

/// A file's size is the number of bytes of the content it was made with, whatever characters
/// that content holds; for ASCII content that is the number of characters.
pub proof fn lemma_file_size_is_byte_length(f: &File, content: &str)
    requires
        f.spec_content() == content@,
    ensures
        f.spec_size() == content.spec_bytes().len(),
        f.spec_size() == encode_utf8(content@).len(),
        is_ascii_chars(content@) ==> f.spec_size() == content@.len(),
{
    if is_ascii_chars(content@) {
        is_ascii_chars_encode_utf8(content@);
    }
}

/// The size of two runs of items one after the other is the sum of their sizes.
pub proof fn lemma_items_size_concat(a: Seq<FileSystemItem>, b: Seq<FileSystemItem>)
    ensures
        items_size(a + b) == items_size(a) + items_size(b),
    decreases b.len(),
{
    if b.len() == 0 {
        assert(a + b =~= a);
    } else {
        lemma_items_size_concat(a, b.drop_last());
        assert((a + b).drop_last() =~= a + b.drop_last());
    }
}

/// A folder's size is the sum of the sizes of its items: zero when it is empty, and no item
/// is larger than the folder.
pub proof fn lemma_folder_size_is_sum(d: &Folder)
    ensures
        d.spec_size() == items_size(d.spec_items()),
        d.spec_items().len() == 0 ==> d.spec_size() == 0,
        forall|i: int|
            0 <= i < d.spec_items().len() ==> #[trigger] d.spec_items()[i].spec_size()
                <= d.spec_size(),
{
    let items = d.spec_items();
    assert forall|i: int| 0 <= i < items.len() implies #[trigger] items[i].spec_size()
        <= d.spec_size() by {
        lemma_items_size_concat(items.take(i), items.skip(i));
        assert(items.take(i) + items.skip(i) =~= items);
        lemma_items_size_concat(seq![items[i]], items.skip(i + 1));
        assert(seq![items[i]] + items.skip(i + 1) =~= items.skip(i));
        assert(seq![items[i]].drop_last() =~= Seq::<FileSystemItem>::empty());
    }
}

/// Adding an item to a folder adds exactly that item's size to the folder's size.
pub proof fn lemma_add_item_size(before: &Folder, after: &Folder, item: FileSystemItem)
    requires
        after.spec_items() == before.spec_items().push(item),
    ensures
        after.spec_size() == before.spec_size() + item.spec_size(),
{
    assert(after.spec_items().drop_last() =~= before.spec_items());
}

/// Asking a node for its size or its lines twice gives the same answer both times: the
/// answers depend on the node's value alone, which neither query changes.
pub proof fn lemma_queries_repeatable(first: &FileSystemItem, second: &FileSystemItem, level: nat)
    requires
        first == second,
    ensures
        first.spec_size() == second.spec_size(),
        first.spec_lines(level) == second.spec_lines(level),
{
}

/// The lines of two runs of items one after the other are the lines of the first run, then
/// those of the second.
pub proof fn lemma_items_lines_concat(a: Seq<FileSystemItem>, b: Seq<FileSystemItem>, level: nat)
    ensures
        items_lines(a + b, level) == items_lines(a, level) + items_lines(b, level),
    decreases b.len(),
{
    if b.len() == 0 {
        assert(a + b =~= a);
        assert(items_lines(a, level) + items_lines(b, level) =~= items_lines(a, level));
    } else {
        lemma_items_lines_concat(a, b.drop_last(), level);
        assert((a + b).drop_last() =~= a + b.drop_last());
        vstd::seq_lib::lemma_concat_associative(
            items_lines(a, level),
            items_lines(b.drop_last(), level),
            b.last().spec_lines(level),
        );
    }
}

/// Display follows the order of insertion: after an item is added, a folder shows what it
/// showed before, followed by the new item's lines one level deeper.
pub proof fn lemma_add_item_display_order(
    before: &Folder,
    after: &Folder,
    item: FileSystemItem,
    level: nat,
)
    requires
        after.spec_name() == before.spec_name(),
        after.spec_items() == before.spec_items().push(item),
    ensures
        after.spec_lines(level) == before.spec_lines(level) + item.spec_lines(level + 1),
{
    assert(after.spec_items().drop_last() =~= before.spec_items());
    vstd::seq_lib::lemma_concat_associative(
        seq![crate::text::folder_line(level, before.spec_name())],
        items_lines(before.spec_items(), level + 1),
        item.spec_lines(level + 1),
    );
}

} // verus!
