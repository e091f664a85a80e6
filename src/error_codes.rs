use vstd::prelude::*;

use crate::text::views;

verus! {

/// The pattern of an error code in a line of diagnostics: `[E` and four
/// characters other than a line feed, then `]`; the group is the code.
pub const ERROR_CODE_PATTERN: &'static str = r"\[(?P<error>E.{4})\]";

/// Whether a bracketed error code starts at position `i` of `s`.
pub open spec fn is_code_at(s: Seq<char>, i: int) -> bool {
    &&& 0 <= i
    &&& i + 7 <= s.len()
    &&& s[i] == '['
    &&& s[i + 1] == 'E'
    &&& s[i + 2] != '\n'
    &&& s[i + 3] != '\n'
    &&& s[i + 4] != '\n'
    &&& s[i + 5] != '\n'
    &&& s[i + 6] == ']'
}

/// The error codes in `s`, leftmost first and without overlap: each is the
/// five characters between the brackets.
pub open spec fn codes_in(s: Seq<char>) -> Seq<Seq<char>>
    decreases s.len(),
{
    if s.len() < 7 {
        seq![]
    } else if is_code_at(s, 0) {
        seq![s.subrange(1, 6)] + codes_in(s.subrange(7, s.len() as int))
    } else {
        codes_in(s.subrange(1, s.len() as int))
    }
}

/// The text of a sequence of lines, in order.
pub open spec fn concat_lines(lines: Seq<Seq<char>>) -> Seq<char>
    decreases lines.len(),
{
    if lines.len() == 0 {
        seq![]
    } else {
        concat_lines(lines.drop_last()) + lines.last()
    }
}

/// The error codes found line by line, in order.
pub open spec fn codes_of_lines(lines: Seq<Seq<char>>) -> Seq<Seq<char>>
    decreases lines.len(),
{
    if lines.len() == 0 {
        seq![]
    } else {
        codes_of_lines(lines.drop_last()) + codes_in(lines.last())
    }
}

/// How a stream reads as lines: every line but the last ends with a line feed.
pub open spec fn are_lines(lines: Seq<Seq<char>>) -> bool {
    forall|i: int|
        0 <= i < lines.len() - 1 ==> #[trigger] lines[i].len() > 0 && lines[i].last() == '\n'
}

/// The `errors` field of an event that found `codes`: `None` exactly when
/// there are none, else all of them in order.
pub open spec fn errors_field_matches(errors: Option<Vec<String>>, codes: Seq<Seq<char>>) -> bool {
    match errors {
        None => codes.len() == 0,
        Some(v) => codes.len() > 0 && views(v@) == codes,
    }
}

/// Text that ends in a line feed splits the error codes where it ends: no
/// code spans a line feed.
pub proof fn lemma_codes_split_after_line(a: Seq<char>, b: Seq<char>)
    requires
        a.len() == 0 || a.last() == '\n',
    ensures
        codes_in(a + b) == codes_in(a) + codes_in(b),
    decreases a.len(),
{
    let s = a + b;
    if a.len() == 0 {
        assert(s =~= b);
        assert(codes_in(a) + codes_in(b) =~= codes_in(b));
    } else if s.len() < 7 {
        assert(codes_in(a) + codes_in(b) =~= Seq::<Seq<char>>::empty());
    } else if is_code_at(s, 0) {
        if a.len() <= 7 {
            assert(a.last() == s[a.len() - 1]);
            assert(false);
        }
        assert(is_code_at(a, 0));
        let rest = a.subrange(7, a.len() as int);
        assert(s.subrange(7, s.len() as int) =~= rest + b);
        assert(rest.last() == a.last());
        lemma_codes_split_after_line(rest, b);
        assert(s.subrange(1, 6) =~= a.subrange(1, 6));
        assert(codes_in(s) =~= codes_in(a) + codes_in(b));
    } else {
        let rest = a.subrange(1, a.len() as int);
        if a.len() == 1 {
            assert(s.subrange(1, s.len() as int) =~= b);
            assert(codes_in(a) + codes_in(b) =~= codes_in(b));
        } else {
            assert(s.subrange(1, s.len() as int) =~= rest + b);
            assert(rest.last() == a.last());
            lemma_codes_split_after_line(rest, b);
            if a.len() >= 7 {
                assert(!is_code_at(a, 0)) by {
                    if is_code_at(a, 0) {
                        assert(is_code_at(s, 0));
                    }
                }
            } else {
                assert(codes_in(a) =~= Seq::<Seq<char>>::empty());
                assert(codes_in(rest) =~= Seq::<Seq<char>>::empty());
            }
        }
    }
}

/// The error codes gathered line by line are those of the whole stream, in
/// the same order: gathering per line neither loses nor invents a code.
pub proof fn lemma_codes_of_lines(lines: Seq<Seq<char>>)
    requires
        are_lines(lines),
    ensures
        codes_of_lines(lines) == codes_in(concat_lines(lines)),
    decreases lines.len(),
{
    if lines.len() == 0 {
        assert(codes_in(concat_lines(lines)) =~= Seq::<Seq<char>>::empty());
    } else {
        let init = lines.drop_last();
        assert(are_lines(init)) by {
            assert forall|i: int| 0 <= i < init.len() - 1 implies #[trigger] init[i].len() > 0
                && init[i].last() == '\n' by {
                assert(init[i] == lines[i]);
            }
        }
        lemma_codes_of_lines(init);
        if init.len() > 0 {
            assert(init.last() == lines[lines.len() - 2]);
            let text = concat_lines(init);
            assert(text == concat_lines(init.drop_last()) + init.last());
            assert(text.last() == init.last().last());
        }
        lemma_codes_split_after_line(concat_lines(init), lines.last());
    }
}

/// A stream without diagnostics has no error codes, so its event's `errors`
/// field is `None`.
pub proof fn lemma_empty_stream_has_no_errors(errors: Option<Vec<String>>)
    requires
        errors_field_matches(errors, codes_in(Seq::empty())),
    ensures
        errors is None,
{
}

/// Relies on regex's `Regex::new` and `Regex::captures_iter`: the pattern
/// compiles, and the iterator yields every non-overlapping match, leftmost
/// first from the start of the haystack, where `.` is any character but `\n`;
/// each item's `error` group is the code.
#[verifier::external_body]
fn scan_line(line: &str) -> (r: Vec<String>)
    ensures
        views(r@) == codes_in(line@),
{
    let re = regex::Regex::new(ERROR_CODE_PATTERN).unwrap();
    re.captures_iter(line).map(|c| c["error"].to_owned()).collect()
}

/// The error codes of a diagnostic stream, gathered one line at a time.
pub struct ErrorCodeCollector {
    codes: Vec<String>,
}

impl View for ErrorCodeCollector {
    type V = Seq<Seq<char>>;

    closed spec fn view(&self) -> Seq<Seq<char>> {
        views(self.codes@)
    }
}

impl ErrorCodeCollector {
    /// A collector that has seen nothing.
    pub fn new() -> (r: Self)
        ensures
            r@ == Seq::<Seq<char>>::empty(),
    {
        let r = ErrorCodeCollector { codes: Vec::new() };
        assert(r@ =~= Seq::<Seq<char>>::empty());
        r
    }

    /// Scans one line and appends its codes, in order.
    pub fn observe_line(&mut self, line: &str)
        ensures
            final(self)@ == old(self)@ + codes_in(line@),
    {
        let found = scan_line(line);
        let mut i: usize = 0;
        while i < found.len()
            invariant
                i <= found@.len(),
                views(found@) == codes_in(line@),
                self@ == old(self)@ + views(found@).subrange(0, i as int),
            decreases found.len() - i,
        {
            let ghost before = self.codes@;
            self.codes.push(found[i].clone());
            assert(views(self.codes@) =~= views(before).push(found@[i as int]@));
            assert(views(found@).subrange(0, i + 1) == views(found@).subrange(0, i as int).push(
                found@[i as int]@,
            ));
            assert(self@ =~= old(self)@ + views(found@).subrange(0, i + 1));
            i = i + 1;
        }
        assert(views(found@).subrange(0, i as int) =~= views(found@));
    }

    /// The codes seen, in order.
    pub fn codes(&self) -> (r: &Vec<String>)
        ensures
            views(r@) == self@,
    {
        &self.codes
    }

    /// The `errors` field of the event: `None` when no code was seen.
    pub fn into_errors(self) -> (r: Option<Vec<String>>)
        ensures
            errors_field_matches(r, self@),
    {
        if self.codes.len() == 0 {
            None
        } else {
            Some(self.codes)
        }
    }
}

} // verus!
