//! Application state: the editing mode, the input buffer and the last
//! submission, together with the word-deletion operation on the buffer.

use vstd::prelude::*;

verus! {

/// The editing mode of the widget: `Normal` interprets keys as commands,
/// `Insert` edits the input buffer.
#[derive(Clone, Copy, PartialEq, Eq, Structural, Debug)]
pub enum Mode {
    Normal,
    Insert,
}

/// The name of a mode, as the status bar shows it.
pub open spec fn mode_name(m: Mode) -> Seq<char> {
    match m {
        Mode::Normal => "normal"@,
        Mode::Insert => "insert"@,
    }
}

impl Mode {
    /// The mode's display name.
    pub fn name(&self) -> (r: String)
        ensures
            r@ == mode_name(*self),
    {
        match self {
            Mode::Normal => "normal".to_owned(),
            Mode::Insert => "insert".to_owned(),
        }
    }
}

/// True of the characters that `char::is_whitespace` accepts: those with the
/// Unicode `White_Space` property.
pub open spec fn is_ws_char(c: char) -> bool {
    let u = c as u32;
    (0x09 <= u && u <= 0x0D) || u == 0x20 || u == 0x85 || u == 0xA0 || u == 0x1680 || (0x2000 <= u
        && u <= 0x200A) || u == 0x2028 || u == 0x2029 || u == 0x202F || u == 0x205F || u == 0x3000
}

/// Whether `c` has the Unicode `White_Space` property.
pub fn char_is_ws(c: char) -> (r: bool)
    ensures
        r == is_ws_char(c),
{
    let u = c as u32;
    (0x09 <= u && u <= 0x0D) || u == 0x20 || u == 0x85 || u == 0xA0 || u == 0x1680 || (0x2000 <= u
        && u <= 0x200A) || u == 0x2028 || u == 0x2029 || u == 0x202F || u == 0x205F || u == 0x3000
}

/// `s` without its leading whitespace.
pub open spec fn trim_start(s: Seq<char>) -> Seq<char>
    decreases s.len(),
{
    if s.len() > 0 && is_ws_char(s[0]) {
        trim_start(s.drop_first())
    } else {
        s
    }
}

/// `s` without its trailing whitespace.
pub open spec fn trim_end(s: Seq<char>) -> Seq<char>
    decreases s.len(),
{
    if s.len() > 0 && is_ws_char(s.last()) {
        trim_end(s.drop_last())
    } else {
        s
    }
}

/// `s` without leading and trailing whitespace, as `str::trim` yields it.
pub open spec fn trim(s: Seq<char>) -> Seq<char> {
    trim_end(trim_start(s))
}

/// Every character of `s` is whitespace (vacuously true of the empty sequence).
pub open spec fn all_ws(s: Seq<char>) -> bool {
    forall|i: int| 0 <= i < s.len() ==> is_ws_char(s[i])
}

proof fn lemma_trim_start_all_ws(s: Seq<char>)
    requires
        all_ws(s),
    ensures
        trim_start(s).len() == 0,
    decreases s.len(),
{
    if s.len() > 0 {
        assert(is_ws_char(s[0]));
        assert(all_ws(s.drop_first()));
        lemma_trim_start_all_ws(s.drop_first());
    }
}

proof fn lemma_trim_start_empty_all_ws(s: Seq<char>)
    requires
        trim_start(s).len() == 0,
    ensures
        all_ws(s),
    decreases s.len(),
{
    if s.len() > 0 {
        assert(is_ws_char(s[0]));
        lemma_trim_start_empty_all_ws(s.drop_first());
        assert forall|i: int| 0 <= i < s.len() implies is_ws_char(s[i]) by {
            if i > 0 {
                assert(is_ws_char(s.drop_first()[i - 1]));
            }
        }
    }
}

proof fn lemma_trim_end_empty_all_ws(s: Seq<char>)
    requires
        trim_end(s).len() == 0,
    ensures
        all_ws(s),
    decreases s.len(),
{
    if s.len() > 0 {
        assert(is_ws_char(s.last()));
        lemma_trim_end_empty_all_ws(s.drop_last());
        assert forall|i: int| 0 <= i < s.len() implies is_ws_char(s[i]) by {
            if i < s.len() - 1 {
                assert(is_ws_char(s.drop_last()[i]));
            }
        }
    }
}

proof fn lemma_trim_start_first_non_ws(s: Seq<char>)
    requires
        trim_start(s).len() > 0,
    ensures
        !is_ws_char(trim_start(s)[0]),
    decreases s.len(),
{
    if s.len() > 0 && is_ws_char(s[0]) {
        lemma_trim_start_first_non_ws(s.drop_first());
    }
}

/// The buffer is blank (trims to nothing) exactly when every character in it
/// is whitespace.
pub proof fn lemma_blank_iff_all_ws(s: Seq<char>)
    ensures
        trim(s).len() == 0 <==> all_ws(s),
{
    if all_ws(s) {
        lemma_trim_start_all_ws(s);
    }
    if trim(s).len() == 0 {
        lemma_trim_end_empty_all_ws(trim_start(s));
        if trim_start(s).len() > 0 {
            lemma_trim_start_first_non_ws(s);
            assert(is_ws_char(trim_start(s)[0]));
        }
        lemma_trim_start_empty_all_ws(s);
    }
}

/// Whether the buffer trims to the empty string.
pub fn buffer_is_blank(buf: &Vec<char>) -> (r: bool)
    ensures
        r == (trim(buf@).len() == 0),
{
    let mut i: usize = 0;
    while i < buf.len()
        invariant
            0 <= i <= buf@.len(),
            forall|j: int| 0 <= j < i ==> is_ws_char(buf@[j]),
        decreases buf@.len() - i,
    {
        if !char_is_ws(buf[i]) {
            proof {
                lemma_blank_iff_all_ws(buf@);
            }
            return false;
        }
        i = i + 1;
    }
    proof {
        lemma_blank_iff_all_ws(buf@);
    }
    true
}

/// A trimmed buffer without its final space-separated token: characters are
/// dropped from the end up to (and keeping) the last space.
pub open spec fn drop_last_token(t: Seq<char>) -> Seq<char>
    decreases t.len(),
{
    if t.len() > 0 && t.last() != ' ' {
        drop_last_token(t.drop_last())
    } else {
        t
    }
}

/// What delete-last-word leaves in the buffer: the buffer is trimmed, the
/// final token is dropped, and the remainder is trimmed again. Operating on
/// the trimmed buffer throughout makes the operation total, also when the
/// buffer ends in whitespace.
pub open spec fn delete_word_spec(s: Seq<char>) -> Seq<char> {
    trim_end(drop_last_token(trim(s)))
}

proof fn lemma_trim_end_prefix(s: Seq<char>)
    ensures
        trim_end(s).len() <= s.len(),
        forall|i: int| 0 <= i < trim_end(s).len() ==> trim_end(s)[i] == s[i],
    decreases s.len(),
{
    if s.len() > 0 && is_ws_char(s.last()) {
        lemma_trim_end_prefix(s.drop_last());
        assert forall|i: int| 0 <= i < trim_end(s).len() implies trim_end(s)[i] == s[i] by {
            assert(trim_end(s)[i] == s.drop_last()[i]);
        }
    }
}

proof fn lemma_drop_last_token_prefix(t: Seq<char>)
    ensures
        drop_last_token(t).len() <= t.len(),
        forall|i: int| 0 <= i < drop_last_token(t).len() ==> drop_last_token(t)[i] == t[i],
    decreases t.len(),
{
    if t.len() > 0 && t.last() != ' ' {
        lemma_drop_last_token_prefix(t.drop_last());
        assert forall|i: int| 0 <= i < drop_last_token(t).len() implies drop_last_token(t)[i]
            == t[i] by {
            assert(drop_last_token(t)[i] == t.drop_last()[i]);
        }
    }
}

proof fn lemma_trim_end_last_non_ws(s: Seq<char>)
    requires
        trim_end(s).len() > 0,
    ensures
        !is_ws_char(trim_end(s).last()),
    decreases s.len(),
{
    if s.len() > 0 && is_ws_char(s.last()) {
        lemma_trim_end_last_non_ws(s.drop_last());
    }
}

/// Law: the buffer that delete-last-word leaves holds no leading or trailing
/// whitespace: trimming it changes nothing.
pub proof fn lemma_delete_word_trimmed(s: Seq<char>)
    ensures
        trim(delete_word_spec(s)) == delete_word_spec(s),
{
    let t = trim(s);
    let d = drop_last_token(t);
    let r = trim_end(d);
    if r.len() > 0 {
        lemma_trim_end_prefix(d);
        lemma_drop_last_token_prefix(t);
        lemma_trim_end_prefix(trim_start(s));
        lemma_trim_start_first_non_ws(s);
        assert(r[0] == t[0]);
        assert(t[0] == trim_start(s)[0]);
        assert(trim_start(r) == r);
        lemma_trim_end_last_non_ws(d);
        assert(trim_end(r) == r);
    } else {
        assert(trim_start(r) == r);
        assert(trim_end(trim_start(r)) == r);
    }
}

/// The application state: the current mode, the buffer being edited, and the
/// most recently submitted text.
#[derive(Debug)]
pub struct App {
    pub mode: Mode,
    pub input_box: Vec<char>,
    pub submission: Vec<char>,
}

impl Default for App {
    /// A fresh application: Normal mode, empty buffer, empty submission.
    fn default() -> (a: App)
        ensures
            a.mode == Mode::Normal,
            a.input_box@ == Seq::<char>::empty(),
            a.submission@ == Seq::<char>::empty(),
    {
        App { mode: Mode::Normal, input_box: Vec::new(), submission: Vec::new() }
    }
}

/// An element-wise copy of a character buffer.
pub(crate) fn copy_chars(buf: &Vec<char>) -> (r: Vec<char>)
    ensures
        r@ == buf@,
{
    let mut r: Vec<char> = Vec::new();
    let mut i: usize = 0;
    while i < buf.len()
        invariant
            0 <= i <= buf@.len(),
            r@ == buf@.subrange(0, i as int),
        decreases buf@.len() - i,
    {
        r.push(buf[i]);
        proof {
            assert(r@ =~= buf@.subrange(0, i + 1 as int));
        }
        i = i + 1;
    }
    proof {
        assert(buf@.subrange(0, buf@.len() as int) =~= buf@);
    }
    r
}

fn delete_word_in(buf: &mut Vec<char>)
    ensures
        final(buf)@ == delete_word_spec(old(buf)@),
{
    let ghost orig = buf@;
    // Trim the front.
    while buf.len() > 0 && char_is_ws(buf[0])
        invariant
            trim_start(buf@) == trim_start(orig),
        decreases buf@.len(),
    {
        let ghost prev = buf@;
        let _ = buf.remove(0);
        proof {
            assert(prev.remove(0) =~= prev.drop_first());
        }
    }
    assert(buf@ == trim_start(orig));
    // Trim the back.
    while buf.len() > 0 && char_is_ws(buf[buf.len() - 1])
        invariant
            trim_end(buf@) == trim_end(trim_start(orig)),
        decreases buf@.len(),
    {
        let ghost prev = buf@;
        let _ = buf.pop();
        proof {
            assert(prev.subrange(0, prev.len() - 1) =~= prev.drop_last());
        }
    }
    assert(buf@ == trim(orig));
    // Drop the final token.
    while buf.len() > 0 && buf[buf.len() - 1] != ' '
        invariant
            drop_last_token(buf@) == drop_last_token(trim(orig)),
        decreases buf@.len(),
    {
        let ghost prev = buf@;
        let _ = buf.pop();
        proof {
            assert(prev.subrange(0, prev.len() - 1) =~= prev.drop_last());
        }
    }
    assert(buf@ == drop_last_token(trim(orig)));
    // Trim the trailing spaces the dropped token leaves behind.
    while buf.len() > 0 && char_is_ws(buf[buf.len() - 1])
        invariant
            trim_end(buf@) == trim_end(drop_last_token(trim(orig))),
        decreases buf@.len(),
    {
        let ghost prev = buf@;
        let _ = buf.pop();
        proof {
            assert(prev.subrange(0, prev.len() - 1) =~= prev.drop_last());
        }
    }
}

impl App {
    /// Delete the last space-separated word of the input buffer; a blank or
    /// single-word buffer becomes empty. Mode and submission are untouched.
    pub fn delete_word(&mut self)
        ensures
            final(self).mode == old(self).mode,
            final(self).submission@ == old(self).submission@,
            final(self).input_box@ == delete_word_spec(old(self).input_box@),
    {
        delete_word_in(&mut self.input_box);
    }
}

} // verus!
