//! Reading numbers and separated fields out of command-line text.

use vstd::prelude::*;

verus! {

/// The value of the digit `c` in base `radix` (10 or 16); hexadecimal
/// digits may be written in either case.
pub open spec fn digit_of(c: char, radix: nat) -> Option<nat> {
    if '0' <= c <= '9' && (c as nat) - ('0' as nat) < radix {
        Some(((c as nat) - ('0' as nat)) as nat)
    } else if radix == 16 && 'a' <= c <= 'f' {
        Some(((c as nat) - ('a' as nat) + 10) as nat)
    } else if radix == 16 && 'A' <= c <= 'F' {
        Some(((c as nat) - ('A' as nat) + 10) as nat)
    } else {
        None
    }
}

/// The value of a string of digits, most significant first; `None` when a
/// character is not a digit. The empty string has the value 0.
pub open spec fn digits_value(s: Seq<char>, radix: nat) -> Option<nat>
    decreases s.len(),
{
    if s.len() == 0 {
        Some(0)
    } else {
        match (digits_value(s.drop_last(), radix), digit_of(s.last(), radix)) {
            (Some(v), Some(d)) => Some(v * radix + d),
            _ => None,
        }
    }
}

/// An unsigned number: an optional `+` followed by at least one digit.
pub open spec fn unsigned_of(s: Seq<char>, radix: nat) -> Option<nat> {
    let body = if s.len() > 0 && s[0] == '+' {
        s.drop_first()
    } else {
        s
    };
    if body.len() == 0 {
        None
    } else {
        digits_value(body, radix)
    }
}

/// An unsigned number that does not exceed `max`.
pub open spec fn bounded_of(s: Seq<char>, radix: nat, max: nat) -> Option<nat> {
    match unsigned_of(s, radix) {
        Some(v) => if v <= max {
            Some(v)
        } else {
            None
        },
        None => None,
    }
}

fn digit_value(c: char, radix: u32) -> (r: Option<u32>)
    requires
        radix == 10 || radix == 16,
    ensures
        r matches Some(d) ==> digit_of(c, radix as nat) == Some(d as nat) && d < radix,
        r is None ==> digit_of(c, radix as nat) is None,
{
    if '0' <= c && c <= '9' && (c as u32) - ('0' as u32) < radix {
        Some((c as u32) - ('0' as u32))
    } else if radix == 16 && 'a' <= c && c <= 'f' {
        Some((c as u32) - ('a' as u32) + 10)
    } else if radix == 16 && 'A' <= c && c <= 'F' {
        Some((c as u32) - ('A' as u32) + 10)
    } else {
        None
    }
}

/// Reads an unsigned number in base `radix` that does not exceed `max`, as
/// `u32::from_str_radix` would and then checking the bound.
pub fn parse_bounded(s: &str, radix: u32, max: u32) -> (r: Option<u32>)
    requires
        radix == 10 || radix == 16,
    ensures
        r matches Some(v) ==> bounded_of(s@, radix as nat, max as nat) == Some(v as nat),
        r is None ==> bounded_of(s@, radix as nat, max as nat) is None,
{
    let len = s.unicode_len();
    let mut i: usize = 0;
    if len > 0 && s.get_char(0) == '+' {
        i = 1;
    }
    let start = i;
    let ghost body = s@.subrange(start as int, len as int);
    assert(body =~= (if s@.len() > 0 && s@[0] == '+' { s@.drop_first() } else { s@ }));
    if start == len {
        return None;
    }
    let mut acc: u64 = 0;
    let mut over = false;
    while i < len
        invariant
            start <= i <= len,
            len == s@.len(),
            body == s@.subrange(start as int, len as int),
            body == (if s@.len() > 0 && s@[0] == '+' { s@.drop_first() } else { s@ }),
            body.len() > 0,
            radix == 10 || radix == 16,
            digits_value(s@.subrange(start as int, i as int), radix as nat) is Some,
            !over ==> acc == digits_value(s@.subrange(start as int, i as int), radix as nat)->0
                && acc <= max,
            over ==> digits_value(s@.subrange(start as int, i as int), radix as nat)->0 > max,
        decreases len - i,
    {
        let c = s.get_char(i);
        let ghost prev = s@.subrange(start as int, i as int);
        assert(s@.subrange(start as int, i + 1).drop_last() =~= prev);
        assert(s@.subrange(start as int, i + 1).last() == c);
        match digit_value(c, radix) {
            None => {
                assert(digits_value(s@.subrange(start as int, i + 1), radix as nat) is None);
                assert(digits_value(body, radix as nat) is None) by {
                    assert(body.subrange(0, i + 1 - start) =~= s@.subrange(start as int, i + 1));
                    lemma_invalid_extends(s@.subrange(start as int, i + 1), body, radix as nat);
                }
                return None;
            },
            Some(d) => {
                let ghost v = digits_value(prev, radix as nat)->0;
                assert(v * radix + d >= v) by (nonlinear_arith)
                    requires radix >= 1, d >= 0, v >= 0;
                if !over {
                    let next: u64 = acc * (radix as u64) + (d as u64);
                    if next > max as u64 {
                        over = true;
                    } else {
                        acc = next;
                    }
                }
            },
        }
        i = i + 1;
    }
    assert(s@.subrange(start as int, len as int) =~= body);
    if over {
        None
    } else {
        Some(acc as u32)
    }
}

/// A string that holds a non-digit keeps it in every extension.
proof fn lemma_invalid_extends(pre: Seq<char>, s: Seq<char>, radix: nat)
    requires
        pre.len() <= s.len(),
        pre == s.subrange(0, pre.len() as int),
        digits_value(pre, radix) is None,
    ensures
        digits_value(s, radix) is None,
    decreases s.len(),
{
    if s.len() > pre.len() {
        assert(s.drop_last().subrange(0, pre.len() as int) =~= pre);
        lemma_invalid_extends(pre, s.drop_last(), radix);
    } else {
        assert(s =~= pre);
    }
}

/// The fields of `s` between separators, as `str::split` yields them: always
/// at least one, and an empty one wherever two separators meet or one
/// stands at either end.
pub open spec fn split_fields(s: Seq<char>, sep: spec_fn(char) -> bool) -> Seq<Seq<char>>
    decreases s.len(),
{
    if s.len() == 0 {
        seq![Seq::empty()]
    } else {
        let fields = split_fields(s.drop_last(), sep);
        if sep(s.last()) {
            fields.push(Seq::empty())
        } else {
            fields.update(fields.len() - 1, fields.last().push(s.last()))
        }
    }
}

/// Whether two strings hold the same characters.
pub fn same_text(a: &str, b: &str) -> (r: bool)
    ensures
        r == (a@ == b@),
{
    let n = a.unicode_len();
    if n != b.unicode_len() {
        return false;
    }
    let mut i: usize = 0;
    while i < n
        invariant
            n == a@.len() == b@.len(),
            i <= n,
            a@.subrange(0, i as int) == b@.subrange(0, i as int),
        decreases n - i,
    {
        if a.get_char(i) != b.get_char(i) {
            return false;
        }
        assert(a@.subrange(0, i + 1) =~= a@.subrange(0, i as int).push(a@[i as int]));
        assert(b@.subrange(0, i + 1) =~= b@.subrange(0, i as int).push(b@[i as int]));
        i = i + 1;
    }
    assert(a@ =~= a@.subrange(0, n as int));
    assert(b@ =~= b@.subrange(0, n as int));
    true
}

/// Separators the library splits on.
pub enum Separator {
    /// `,` between the two ends of a port range.
    Comma,
    /// `:` or `-` between the bytes of a MAC address.
    MacDelimiter,
}

impl Separator {
    /// Whether `c` is this separator.
    pub open spec fn spec_matches(self) -> spec_fn(char) -> bool {
        match self {
            Separator::Comma => |c: char| c == ',',
            Separator::MacDelimiter => |c: char| c == ':' || c == '-',
        }
    }

    fn is_separator(&self, c: char) -> (r: bool)
        ensures
            r == (self.spec_matches())(c),
    {
        match self {
            Separator::Comma => c == ',',
            Separator::MacDelimiter => c == ':' || c == '-',
        }
    }
}

/// The bounds `(from, to)` of each field of `s` between separators.
pub fn field_bounds(s: &str, sep: Separator) -> (r: Vec<(usize, usize)>)
    ensures
        r@.len() == split_fields(s@, sep.spec_matches()).len(),
        forall|k: int|
            #![trigger r@[k]]
            0 <= k < r@.len() ==> {
                &&& r@[k].0 <= r@[k].1 <= s@.len()
                &&& s@.subrange(r@[k].0 as int, r@[k].1 as int)
                    == split_fields(s@, sep.spec_matches())[k]
            },
{
    let len = s.unicode_len();
    let ghost f = sep.spec_matches();
    let mut bounds: Vec<(usize, usize)> = Vec::new();
    let mut start: usize = 0;
    let mut i: usize = 0;
    while i < len
        invariant
            len == s@.len(),
            f == sep.spec_matches(),
            start <= i <= len,
            split_fields(s@.subrange(0, i as int), f).len() == bounds@.len() + 1,
            split_fields(s@.subrange(0, i as int), f).last() == s@.subrange(start as int, i as int),
            forall|k: int|
                #![trigger bounds@[k]]
                0 <= k < bounds@.len() ==> {
                    &&& bounds@[k].0 <= bounds@[k].1 <= i
                    &&& s@.subrange(bounds@[k].0 as int, bounds@[k].1 as int)
                        == split_fields(s@.subrange(0, i as int), f)[k]
                },
        decreases len - i,
    {
        let c = s.get_char(i);
        let ghost prefix = s@.subrange(0, i + 1);
        let ghost old_fields = split_fields(s@.subrange(0, i as int), f);
        let ghost old_bounds = bounds@;
        let ghost old_start = start;
        assert(prefix.drop_last() =~= s@.subrange(0, i as int));
        assert(prefix.last() == c);
        assert(split_fields(prefix, f) == if f(c) {
            old_fields.push(Seq::empty())
        } else {
            old_fields.update(old_fields.len() - 1, old_fields.last().push(c))
        });
        if sep.is_separator(c) {
            bounds.push((start, i));
            assert(bounds@[old_bounds.len() as int] == (start, i));
            start = i + 1;
            assert(s@.subrange(start as int, i + 1) =~= Seq::<char>::empty());
        } else {
            assert(s@.subrange(start as int, i as int).push(c)
                =~= s@.subrange(start as int, i + 1));
        }
        assert forall|k: int| 0 <= k < bounds@.len() implies {
            &&& bounds@[k].0 <= bounds@[k].1 <= i + 1
            &&& s@.subrange(bounds@[k].0 as int, bounds@[k].1 as int)
                == split_fields(prefix, f)[k]
        } by {
            if k < old_bounds.len() {
                assert(bounds@[k] == old_bounds[k]);
                assert(split_fields(prefix, f)[k] == old_fields[k]);
            } else {
                assert(f(c));
                assert(bounds@[k] == (old_start, i));
                assert(split_fields(prefix, f)[k] == old_fields[k]);
                assert(old_fields[k] == old_fields.last());
            }
        }
        i = i + 1;
    }
    assert(s@.subrange(0, len as int) =~= s@);
    let ghost old_bounds = bounds@;
    let ghost fields = split_fields(s@, f);
    assert(fields == split_fields(s@.subrange(0, len as int), f));
    bounds.push((start, len));
    assert forall|k: int| 0 <= k < bounds@.len() implies {
        &&& bounds@[k].0 <= bounds@[k].1 <= s@.len()
        &&& s@.subrange(bounds@[k].0 as int, bounds@[k].1 as int)
            == split_fields(s@, sep.spec_matches())[k]
    } by {
        if k < old_bounds.len() {
            assert(bounds@[k] == old_bounds[k]);
        } else {
            assert(bounds@[k] == (start, len));
            assert(fields[k] == fields.last());
        }
    }
    bounds
}

} // verus!
