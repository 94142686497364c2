//! Text that the rest of the library puts together or takes apart.

use vstd::prelude::*;

verus! {

/// `String::push` of the standard library: appends one character to the end
/// of the string and leaves what was there before it.
pub assume_specification[ String::push ](s: &mut String, c: char)
    ensures
        final(s)@ == old(s)@.push(c),
;

/// A file below a directory: a file name that starts with a slash stands for
/// itself, any other is put behind the directory with one slash in between.
pub open spec fn joined_path(dir: Seq<char>, file: Seq<char>) -> Seq<char> {
    if file.len() > 0 && file[0] == '/' {
        file
    } else if dir.len() == 0 || dir.last() == '/' {
        dir + file
    } else {
        dir.push('/') + file
    }
}

/// The text with every double quote taken out.
pub open spec fn unquoted(s: Seq<char>) -> Seq<char> {
    s.filter(|c: char| c != '"')
}

/// Whether `s` ends in `suffix`.
pub open spec fn has_suffix(s: Seq<char>, suffix: Seq<char>) -> bool {
    &&& suffix.len() <= s.len()
    &&& s.skip(s.len() - suffix.len()) == suffix
}

/// Puts a file name behind a directory.
pub fn join_path(dir: &str, file: &str) -> (path: String)
    ensures
        path@ == joined_path(dir@, file@),
{
    let file_len: usize = file.unicode_len();
    if file_len > 0 && file.get_char(0) == '/' {
        return file.to_owned();
    }
    let dir_len: usize = dir.unicode_len();
    let mut path = dir.to_owned();
    if dir_len > 0 && dir.get_char(dir_len - 1) != '/' {
        path.push('/');
    }
    path.append(file);
    path
}

/// Takes every double quote out of a text.
pub fn strip_quotes(s: &str) -> (r: String)
    ensures
        r@ == unquoted(s@),
{
    let mut r = String::new();
    assert(r@ == unquoted(s@.take(0)));
    for c in it: s.chars()
        invariant
            it.seq() == s@,
            r@ == unquoted(s@.take(it.index())),
    {
        proof {
            let i = it.index();
            reveal(Seq::filter);
            assert(s@.take(i + 1).drop_last() == s@.take(i));
        }
        if c != '"' {
            r.push(c);
        }
    }
    assert(s@.take(s@.len() as int) == s@);
    r
}

/// Whether a text ends in the given suffix.
pub fn ends_with(s: &str, suffix: &str) -> (r: bool)
    ensures
        r == has_suffix(s@, suffix@),
{
    let n: usize = s.unicode_len();
    let m: usize = suffix.unicode_len();
    if m > n {
        return false;
    }
    let tail = s.substring_char(n - m, n).to_owned();
    assert(s@.skip(n - m) == s@.subrange(n - m, n as int));
    tail == suffix.to_owned()
}

/// The truth value that a text stands for: `true` and `false` are the only
/// texts that stand for one.
pub open spec fn truth_value(s: Seq<char>) -> Option<bool> {
    if s == "true"@ {
        Some(true)
    } else if s == "false"@ {
        Some(false)
    } else {
        None
    }
}

/// Reads a truth value.
pub fn parse_bool(s: &str) -> (r: Option<bool>)
    ensures
        r == truth_value(s@),
{
    let s = s.to_owned();
    if s == "true".to_owned() {
        Some(true)
    } else if s == "false".to_owned() {
        Some(false)
    } else {
        None
    }
}

/// Stripping quotes leaves no quote behind.
pub proof fn law_unquoted_has_no_quote(s: Seq<char>)
    ensures
        !unquoted(s).contains('"'),
{
    let keep = |c: char| c != '"';
    assert forall|i: int| 0 <= i < unquoted(s).len() implies unquoted(s)[i] != '"' by {
        s.lemma_filter_pred(keep, i);
    }
}

/// A text without quotes is left as it is.
pub proof fn law_unquoted_keeps_the_rest(s: Seq<char>)
    requires
        !s.contains('"'),
    ensures
        unquoted(s) == s,
    decreases s.len(),
{
    reveal(Seq::filter);
    if s.len() > 0 {
        let init = s.drop_last();
        assert(s[s.len() - 1] == s.last());
        assert forall|i: int| 0 <= i < init.len() implies init[i] != '"' by {
            assert(init[i] == s[i]);
        }
        law_unquoted_keeps_the_rest(init);
        assert(init.push(s.last()) == s);
    }
}

/// Stripping quotes works character by character: a text of two parts is stripped
/// part by part, a quote on its own leaves nothing, and any other character
/// stays.
pub proof fn law_unquoted_by_parts(a: Seq<char>, b: Seq<char>, c: char)
    ensures
        unquoted(a + b) == unquoted(a) + unquoted(b),
        unquoted(Seq::<char>::empty()) == Seq::<char>::empty(),
        c == '"' ==> unquoted(seq![c]) == Seq::<char>::empty(),
        c != '"' ==> unquoted(seq![c]) == seq![c],
{
    let keep = |c: char| c != '"';
    Seq::filter_distributes_over_add(a, b, keep);
    reveal(Seq::filter);
    assert(seq![c].drop_last() == Seq::<char>::empty());
    assert(seq![c].drop_last().filter(keep) == Seq::<char>::empty());
}

/// A text in quotes is that text, if it has none of its own.
pub proof fn law_quoted_text(l: Seq<char>)
    requires
        !l.contains('"'),
    ensures
        unquoted(seq!['"'] + l + seq!['"']) == l,
{
    law_unquoted_by_parts(seq!['"'] + l, seq!['"'], '"');
    law_unquoted_by_parts(seq!['"'], l, '"');
    law_unquoted_keeps_the_rest(l);
    assert(Seq::<char>::empty() + l + Seq::<char>::empty() == l);
}

/// A text ends in a suffix exactly when it is some text followed by the suffix.
pub proof fn law_suffix(s: Seq<char>, suffix: Seq<char>)
    ensures
        has_suffix(s, suffix) <==> exists|start: Seq<char>| s == #[trigger] (start + suffix),
{
    if has_suffix(s, suffix) {
        let start = s.take(s.len() - suffix.len());
        assert(s == start + suffix) by {
            assert(s.skip(s.len() - suffix.len()) == suffix);
            assert forall|i: int| 0 <= i < s.len() implies s[i] == (start + suffix)[i] by {
                if i >= start.len() {
                    assert(s.skip(s.len() - suffix.len())[i - start.len()] == s[i]);
                }
            }
        }
    }
    if exists|start: Seq<char>| s == #[trigger] (start + suffix) {
        let start = choose|start: Seq<char>| s == #[trigger] (start + suffix);
        assert(s.skip(s.len() - suffix.len()) == suffix);
    }
}

/// Two texts stand for a truth value, and no other.
pub proof fn law_truth_values(s: Seq<char>)
    ensures
        truth_value(s) == Some(true) <==> s == seq!['t', 'r', 'u', 'e'],
        truth_value(s) == Some(false) <==> s == seq!['f', 'a', 'l', 's', 'e'],
{
    reveal_strlit("true");
    reveal_strlit("false");
    assert("true"@ == seq!['t', 'r', 'u', 'e']);
    assert("false"@ == seq!['f', 'a', 'l', 's', 'e']);
    assert(seq!['t', 'r', 'u', 'e'].len() != seq!['f', 'a', 'l', 's', 'e'].len());
}

/// A path ends in the whole file name. A file name that starts with a slash is
/// the path itself. Any other path begins with the whole directory, and between
/// the two stands one slash, unless the directory is empty or ends in one.
pub proof fn law_path_parts(dir: Seq<char>, file: Seq<char>)
    ensures
        ({
            let path = joined_path(dir, file);
            let absolute = file.len() > 0 && file[0] == '/';
            let closed = dir.len() == 0 || dir[dir.len() - 1] == '/';
            &&& path.len() >= file.len()
            &&& path.skip(path.len() - file.len()) == file
            &&& absolute ==> path.len() == file.len()
            &&& !absolute ==> path.take(dir.len() as int) == dir
            &&& !absolute && closed ==> path.len() == dir.len() + file.len()
            &&& !absolute && !closed ==> path.len() == dir.len() + 1 + file.len()
                && path[dir.len() as int] == '/'
        }),
{
    let path = joined_path(dir, file);
    assert(path.skip(path.len() - file.len()) =~= file);
    if !(file.len() > 0 && file[0] == '/') {
        assert(path.take(dir.len() as int) =~= dir);
    }
}

} // verus!
