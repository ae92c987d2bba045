//! The document: an ordered sequence of lines, the identity of the
//! source it came from, and whether it has been modified since the
//! last save.

use crate::line::{
    deleted_text, lemma_wf_empty_text, line_wf, spliced_text, Line, TextFragment,
};
use crate::segment::push_char;
use vstd::prelude::*;

verus! {

/// A line with its terminator stripped: a single trailing carriage
/// return is dropped (it belonged to a `\r\n` ending).
pub open spec fn strip_cr(l: Seq<char>) -> Seq<char> {
    if l.len() > 0 && l.last() == '\r' {
        l.drop_last()
    } else {
        l
    }
}

/// The rows that splitting text on line terminators yields, walked
/// with `acc` holding the characters of the row read so far: rows are
/// separated by `\n` (a preceding `\r` belongs to the terminator), and
/// a final terminator ends the last row rather than opening a new one.
pub open spec fn lines_rec(acc: Seq<char>, rest: Seq<char>) -> Seq<Seq<char>>
    decreases rest.len(),
{
    if rest.len() == 0 {
        if acc.len() == 0 {
            Seq::empty()
        } else {
            seq![acc]
        }
    } else if rest[0] == '\n' {
        seq![strip_cr(acc)] + lines_rec(Seq::empty(), rest.drop_first())
    } else {
        lines_rec(acc.push(rest[0]), rest.drop_first())
    }
}

/// The rows of a raw text.
pub open spec fn lines_spec(s: Seq<char>) -> Seq<Seq<char>> {
    lines_rec(Seq::empty(), s)
}

/// The raw text a document serializes to: each row's text followed by
/// a newline.
pub open spec fn content_spec(lines: Seq<Line>) -> Seq<char>
    decreases lines.len(),
{
    if lines.len() == 0 {
        Seq::empty()
    } else {
        lines[0].text() + seq!['\n'] + content_spec(lines.drop_first())
    }
}

/// The source a document was loaded from or saved to, when it has one.
pub struct FileInfo {
    pub path: Option<String>,
}

impl FileInfo {
    pub fn from(file_name: &str) -> (r: FileInfo)
        ensures
            r.path is Some,
            r.path.unwrap()@ == file_name@,
    {
        FileInfo { path: Some(String::from_str(file_name)) }
    }

    /// The name to show for the document's source.
    pub fn display_name(&self) -> (r: String)
        ensures
            self.path is Some ==> r@ == self.path.unwrap()@,
            self.path is None ==> r@ == "No Name"@,
    {
        match &self.path {
            Some(p) => String::from_str(p.as_str()),
            None => String::from_str("No Name"),
        }
    }
}

impl Default for FileInfo {
    fn default() -> (r: FileInfo)
        ensures
            r.path is None,
    {
        FileInfo { path: None }
    }
}

pub struct Buffer {
    pub lines: Vec<Line>,
    pub file_info: FileInfo,
    pub is_modified: bool,
}

impl Default for Buffer {
    fn default() -> (r: Buffer)
        ensures
            r.lines@ == Seq::<Line>::empty(),
            r.file_info.path is None,
            !r.is_modified,
    {
        Buffer { lines: Vec::new(), file_info: FileInfo::default(), is_modified: false }
    }
}

/// What inserting character `c` at grapheme `grapheme_index` of row
/// `line_index` does to a document: a row just past the end is first
/// created empty, an index further out changes nothing, and otherwise
/// only the addressed row changes, by splicing the character in.
pub open spec fn buf_insert_post(
    pre: Buffer,
    post: Buffer,
    line_index: int,
    c: char,
    grapheme_index: int,
) -> bool {
    let n = pre.lines@.len() as int;
    if line_index > n {
        post == pre
    } else {
        let grown = line_index == n;
        let prev = if grown {
            Seq::<TextFragment>::empty()
        } else {
            pre.lines@[line_index]@
        };
        &&& post.lines@.len() == if grown {
            n + 1
        } else {
            n
        }
        &&& forall|j: int|
            0 <= j < n && j != line_index ==> post.lines@[j] == pre.lines@[j]
        &&& post.lines@[line_index].text() == spliced_text(prev, c, grapheme_index)
        &&& line_wf(post.lines@[line_index])
        &&& post.is_modified
        &&& post.file_info == pre.file_info
    }
}

/// What deleting the grapheme at `grapheme_index` of row `line_index`
/// does to a document: nothing when the row does not exist, otherwise
/// only that row changes, by removing the grapheme.
pub open spec fn buf_delete_post(
    pre: Buffer,
    post: Buffer,
    line_index: int,
    grapheme_index: int,
) -> bool {
    let n = pre.lines@.len() as int;
    if 0 <= line_index < n {
        &&& post.lines@.len() == n
        &&& forall|j: int| 0 <= j < n && j != line_index ==> post.lines@[j] == pre.lines@[j]
        &&& post.lines@[line_index].text() == deleted_text(pre.lines@[line_index]@, grapheme_index)
        &&& line_wf(post.lines@[line_index])
        &&& post.is_modified
        &&& post.file_info == pre.file_info
    } else {
        post == pre
    }
}

/// What merging row `merge_to_index` onto row `line_index` does: the
/// merged-from row is removed, and if the merged-into row exists after
/// the removal its text gains the removed row's text.
pub open spec fn buf_merge_post(
    pre: Buffer,
    post: Buffer,
    line_index: int,
    merge_to_index: int,
) -> bool {
    let removed = pre.lines@[merge_to_index];
    let shifted = pre.lines@.remove(merge_to_index);
    if 0 <= line_index < shifted.len() {
        &&& post.lines@.len() == shifted.len()
        &&& forall|j: int|
            0 <= j < shifted.len() && j != line_index ==> post.lines@[j] == shifted[j]
        &&& post.lines@[line_index].text() == shifted[line_index].text() + removed.text()
        &&& line_wf(post.lines@[line_index])
        &&& post.is_modified
        &&& post.file_info == pre.file_info
    } else {
        &&& post.lines@ == shifted
        &&& post.is_modified == pre.is_modified
        &&& post.file_info == pre.file_info
    }
}

/// What a line break at grapheme `grapheme_index` of row `line_index`
/// does: at the start of a row a new empty row appears before it,
/// inside a row the row is split in two, at the end of a row a new
/// empty row appears after it, and at a row that does not exist
/// nothing changes; the document is marked modified in every case.
pub open spec fn buf_enter_post(
    pre: Buffer,
    post: Buffer,
    line_index: int,
    grapheme_index: int,
) -> bool {
    let n = pre.lines@.len() as int;
    &&& post.file_info == pre.file_info
    &&& post.is_modified
    &&& if grapheme_index == 0 {
        &&& post.lines@.len() == n + 1
        &&& post.lines@ == pre.lines@.insert(line_index, post.lines@[line_index])
        &&& post.lines@[line_index]@ == Seq::<TextFragment>::empty()
    } else if line_index < n {
        let len_i = pre.lines@[line_index]@.len() as int;
        if grapheme_index < len_i {
            &&& post.lines@.len() == n + 1
            &&& forall|j: int| 0 <= j < line_index ==> post.lines@[j] == pre.lines@[j]
            &&& post.lines@[line_index]@ == pre.lines@[line_index]@.subrange(0, grapheme_index)
            &&& post.lines@[line_index + 1]@ == pre.lines@[line_index]@.subrange(
                grapheme_index,
                len_i,
            )
            &&& post.lines@[line_index].text() + post.lines@[line_index + 1].text()
                == pre.lines@[line_index].text()
            &&& forall|j: int|
                line_index + 1 < j < n + 1 ==> post.lines@[j] == pre.lines@[j - 1]
        } else {
            &&& post.lines@.len() == n + 1
            &&& post.lines@ == pre.lines@.insert(line_index + 1, post.lines@[line_index + 1])
            &&& post.lines@[line_index + 1]@ == Seq::<TextFragment>::empty()
        }
    } else {
        post.lines@ == pre.lines@
    }
}

impl Buffer {
    pub fn is_empty(&self) -> (r: bool)
        ensures
            r == (self.lines@.len() == 0),
    {
        self.lines.is_empty()
    }

    /// The number of rows in the document.
    pub fn get_size(&self) -> (n: usize)
        ensures
            n == self.lines@.len(),
    {
        self.lines.len()
    }

    /// The number of graphemes in the given row; a row index one past
    /// the end counts as an empty row.
    pub fn get_line_length(&self, line_index: usize) -> (n: usize)
        requires
            line_index <= self.lines@.len(),
        ensures
            n == if line_index < self.lines@.len() {
                self.lines@[line_index as int]@.len()
            } else {
                0
            },
    {
        if line_index == self.lines.len() {
            return 0;
        }
        self.lines[line_index].graphemes_len()
    }

    /// Inserts a character into a row, creating the row first when the
    /// index is just past the last one.
    pub fn insert_in_line(&mut self, line_index: usize, c: char, grapheme_index: usize)
        ensures
            buf_insert_post(
                *old(self),
                *final(self),
                line_index as int,
                c,
                grapheme_index as int,
            ),
    {
        if line_index == self.lines.len() {
            let empty = Line::from("");
            proof {
                reveal_strlit("");
                lemma_wf_empty_text(empty);
            }
            self.lines.push(empty);
        }
        if line_index < self.lines.len() {
            self.lines[line_index].insert(c, grapheme_index);
            self.is_modified = true;
        }
    }

    /// Inserts a new empty row before `index`.
    pub fn insert_new_line(&mut self, index: usize)
        requires
            index <= old(self).lines@.len(),
        ensures
            final(self).lines@.len() == old(self).lines@.len() + 1,
            final(self).lines@ == old(self).lines@.insert(
                index as int,
                final(self).lines@[index as int],
            ),
            final(self).lines@[index as int]@ == Seq::<TextFragment>::empty(),
            line_wf(final(self).lines@[index as int]),
            final(self).is_modified == old(self).is_modified,
            final(self).file_info == old(self).file_info,
    {
        let empty = Line::from("");
        proof {
            reveal_strlit("");
            lemma_wf_empty_text(empty);
        }
        self.lines.insert(index, empty);
    }

    /// Applies a line break at the given position.
    pub fn enter(&mut self, line_index: usize, grapheme_index: usize)
        requires
            grapheme_index == 0 ==> line_index <= old(self).lines@.len(),
        ensures
            buf_enter_post(*old(self), *final(self), line_index as int, grapheme_index as int),
    {
        if grapheme_index == 0 {
            self.insert_new_line(line_index);
        } else {
            if line_index < self.lines.len() {
                let len_i = self.lines[line_index].graphemes_len();
                if grapheme_index < len_i {
                    let next_line = self.lines[line_index].split(grapheme_index);
                    self.lines.insert(line_index + 1, next_line);
                } else {
                    self.insert_new_line(line_index + 1);
                }
            }
        }
        self.is_modified = true;
    }

    /// Deletes the grapheme at the given position, when the row exists.
    pub fn delete(&mut self, line_index: usize, grapheme_index: usize)
        ensures
            buf_delete_post(*old(self), *final(self), line_index as int, grapheme_index as int),
    {
        if line_index < self.lines.len() {
            self.lines[line_index].delete(grapheme_index);
            self.is_modified = true;
        }
    }

    /// Builds a document from the raw text of the named source: one
    /// row per line of the text.
    pub fn load(file_name: &str, contents: &str) -> (b: Buffer)
        ensures
            b.lines@.len() == lines_spec(contents@).len(),
            forall|i: int|
                0 <= i < b.lines@.len() ==> (#[trigger] b.lines@[i]).text() == lines_spec(
                    contents@,
                )[i],
            forall|i: int| 0 <= i < b.lines@.len() ==> line_wf(#[trigger] b.lines@[i]),
            !b.is_modified,
            b.file_info.path is Some,
            b.file_info.path.unwrap()@ == file_name@,
    {
        let n = contents.unicode_len();
        let mut lines: Vec<Line> = Vec::new();
        let mut acc: Vec<char> = Vec::new();
        let ghost mut done: Seq<Seq<char>> = Seq::empty();
        let mut i: usize = 0;
        proof {
            assert(contents@.skip(0) =~= contents@);
            assert(done + lines_rec(acc@, contents@) =~= lines_spec(contents@));
        }
        while i < n
            invariant
                i <= n,
                n == contents@.len(),
                lines_spec(contents@) == done + lines_rec(acc@, contents@.skip(i as int)),
                lines@.len() == done.len(),
                forall|j: int|
                    0 <= j < lines@.len() ==> (#[trigger] lines@[j]).text() == done[j],
                forall|j: int| 0 <= j < lines@.len() ==> line_wf(#[trigger] lines@[j]),
            decreases n - i,
        {
            let ghost rest = contents@.skip(i as int);
            let c = contents.get_char(i);
            proof {
                assert(rest[0] == contents@[i as int]);
                assert(rest.drop_first() =~= contents@.skip(i + 1));
            }
            if c == '\n' {
                let m = if acc.len() > 0 && acc[acc.len() - 1] == '\r' {
                    acc.len() - 1
                } else {
                    acc.len()
                };
                proof {
                    assert(acc@.subrange(0, m as int) =~= strip_cr(acc@));
                }
                let mut row_text = String::new();
                let mut j: usize = 0;
                while j < m
                    invariant
                        j <= m,
                        m <= acc@.len(),
                        row_text@ == acc@.subrange(0, j as int),
                    decreases m - j,
                {
                    push_char(&mut row_text, acc[j]);
                    proof {
                        assert(acc@.subrange(0, j as int).push(acc@[j as int]) =~= acc@.subrange(
                            0,
                            j + 1,
                        ));
                    }
                    j += 1;
                }
                let row = Line::from(row_text.as_str());
                lines.push(row);
                let ghost acc0 = acc@;
                acc = Vec::new();
                proof {
                    done = done + seq![strip_cr(acc0)];
                    assert(done + lines_rec(acc@, contents@.skip(i + 1)) =~= lines_spec(
                        contents@,
                    ));
                }
            } else {
                acc.push(c);
            }
            i += 1;
        }
        proof {
            assert(contents@.skip(n as int) =~= Seq::<char>::empty());
        }
        if acc.len() > 0 {
            let mut row_text = String::new();
            let mut j: usize = 0;
            while j < acc.len()
                invariant
                    j <= acc@.len(),
                    row_text@ == acc@.subrange(0, j as int),
                decreases acc@.len() - j,
            {
                push_char(&mut row_text, acc[j]);
                proof {
                    assert(acc@.subrange(0, j as int).push(acc@[j as int]) =~= acc@.subrange(
                        0,
                        j + 1,
                    ));
                }
                j += 1;
            }
            proof {
                assert(acc@.subrange(0, acc@.len() as int) =~= acc@);
            }
            let row = Line::from(row_text.as_str());
            lines.push(row);
            proof {
                done = done + seq![acc@];
                assert(done =~= lines_spec(contents@));
            }
        } else {
            proof {
                assert(done =~= lines_spec(contents@));
            }
        }
        Buffer { lines, file_info: FileInfo::from(file_name), is_modified: false }
    }

    /// The raw text to write when saving: every row followed by a
    /// newline.
    pub fn save_content(&self) -> (s: String)
        ensures
            s@ == content_spec(self.lines@),
    {
        let mut result = String::new();
        let mut idx: usize = 0;
        proof {
            assert(self.lines@.skip(0) =~= self.lines@);
            assert(result@ + content_spec(self.lines@) =~= content_spec(self.lines@));
        }
        while idx < self.lines.len()
            invariant
                idx <= self.lines@.len(),
                content_spec(self.lines@) == result@ + content_spec(self.lines@.skip(idx as int)),
            decreases self.lines@.len() - idx,
        {
            let ghost tail = self.lines@.skip(idx as int);
            let ghost r0 = result@;
            let row_text = self.lines[idx].line_to_string();
            result.append(row_text.as_str());
            push_char(&mut result, '\n');
            proof {
                assert(tail[0] == self.lines@[idx as int]);
                assert(tail.drop_first() =~= self.lines@.skip(idx + 1));
                assert(result@ + content_spec(self.lines@.skip(idx + 1)) =~= r0 + content_spec(
                    tail,
                ));
            }
            idx += 1;
        }
        proof {
            assert(self.lines@.skip(self.lines@.len() as int) =~= Seq::<Line>::empty());
        }
        result
    }

    /// Records that the document was written out successfully.
    pub fn mark_saved(&mut self)
        ensures
            final(self).lines@ == old(self).lines@,
            final(self).file_info == old(self).file_info,
            !final(self).is_modified,
    {
        self.is_modified = false;
    }

    /// Removes the row at `merge_to_index` and appends its text onto
    /// the row at `line_index`.
    pub fn merge(&mut self, line_index: usize, merge_to_index: usize)
        requires
            merge_to_index < old(self).lines@.len(),
        ensures
            buf_merge_post(*old(self), *final(self), line_index as int, merge_to_index as int),
    {
        let removed_line = self.lines.remove(merge_to_index);
        if line_index < self.lines.len() {
            self.lines[line_index].append(&removed_line);
            self.is_modified = true;
        }
    }
}

} // verus!
