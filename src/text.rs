//! Splitting text on `/` and comparing pieces of it.
use vstd::prelude::*;

verus! {

/// The pieces of `s` between its `/` characters, as `str::split('/')` yields
/// them: one more piece than there are slashes, empty pieces included.
pub open spec fn segments(s: Seq<char>) -> Seq<Seq<char>>
    decreases s.len(),
{
    if s.len() == 0 {
        seq![Seq::empty()]
    } else {
        let front = segments(s.drop_last());
        if s.last() == '/' {
            front.push(Seq::empty())
        } else {
            front.update(front.len() - 1, front.last().push(s.last()))
        }
    }
}

pub open spec fn has_slash(s: Seq<char>) -> bool {
    exists|i: int| 0 <= i < s.len() && s[i] == '/'
}

proof fn lemma_segments_nonempty(s: Seq<char>)
    ensures
        segments(s).len() >= 1,
    decreases s.len(),
{
    if s.len() > 0 {
        lemma_segments_nonempty(s.drop_last());
    }
}

/// Splits `s` on every `/`.
pub fn split_slashes(s: &str) -> (r: Vec<String>)
    ensures
        r@.len() == segments(s@).len(),
        forall|k: int| 0 <= k < r@.len() ==> #[trigger] r@[k]@ == segments(s@)[k],
{
    let len = s.unicode_len();
    let mut pieces: Vec<String> = Vec::new();
    let mut start: usize = 0;
    let mut i: usize = 0;
    assert(s@.take(0) =~= Seq::<char>::empty());
    assert(pieces@.map_values(|p: String| p@).push(s@.subrange(0, 0)) =~= seq![Seq::<char>::empty()]);
    while i < len
        invariant
            start <= i <= len,
            len == s@.len(),
            segments(s@.take(i as int)) =~= pieces@.map_values(|p: String| p@).push(
                s@.subrange(start as int, i as int),
            ),
        decreases len - i,
    {
        let c = s.get_char(i);
        let ghost before = pieces@.map_values(|p: String| p@);
        proof {
            lemma_segments_nonempty(s@.take(i as int));
            assert(s@.take(i + 1).drop_last() =~= s@.take(i as int));
        }
        if c == '/' {
            let piece = String::from_str(s.substring_char(start, i));
            pieces.push(piece);
            start = i + 1;
            assert(s@.subrange(start as int, i + 1) =~= Seq::<char>::empty());
        } else {
            assert(s@.subrange(start as int, i + 1) =~= s@.subrange(start as int, i as int).push(c));
        }
        i = i + 1;
    }
    let last = String::from_str(s.substring_char(start, len));
    pieces.push(last);
    assert(s@.take(len as int) =~= s@);
    let ghost views = pieces@.map_values(|p: String| p@);
    assert forall|k: int| 0 <= k < pieces@.len() implies #[trigger] pieces@[k]@ == segments(s@)[k] by {
        assert(views[k] == pieces@[k]@);
    }
    pieces
}


/// No piece that `segments` yields holds a `/`.
pub proof fn lemma_segments_have_no_slash(s: Seq<char>)
    ensures
        forall|k: int| 0 <= k < segments(s).len() ==> !has_slash(#[trigger] segments(s)[k]),
    decreases s.len(),
{
    if s.len() > 0 {
        let front = segments(s.drop_last());
        lemma_segments_have_no_slash(s.drop_last());
        lemma_segments_nonempty(s.drop_last());
        if s.last() != '/' {
            let piece = front.last().push(s.last());
            assert(!has_slash(front[front.len() - 1]));
            assert forall|k: int| 0 <= k < segments(s).len() implies !has_slash(#[trigger] segments(s)[k]) by {
                if k == front.len() - 1 {
                    if has_slash(piece) {
                        let j = choose|j: int| 0 <= j < piece.len() && piece[j] == '/';
                        assert(j < piece.len() - 1);
                        assert(front.last()[j] == '/');
                    }
                }
            }
        } else {
            assert forall|k: int| 0 <= k < segments(s).len() implies !has_slash(#[trigger] segments(s)[k]) by {
                if k == front.len() {
                    assert(segments(s)[k] =~= Seq::<char>::empty());
                }
            }
        }
    }
}

/// Whether two texts hold the same characters.
pub fn same_text(a: &str, b: &str) -> (r: bool)
    ensures
        r == (a@ == b@),
{
    let n = a.unicode_len();
    if n != b.unicode_len() {
        return false;
    }
    let mut i: usize = 0;
    while i < n
        invariant
            i <= n,
            n == a@.len(),
            n == b@.len(),
            a@.take(i as int) == b@.take(i as int),
        decreases n - i,
    {
        if a.get_char(i) != b.get_char(i) {
            return false;
        }
        assert(a@.take(i + 1) =~= a@.take(i as int).push(a@[i as int]));
        assert(b@.take(i + 1) =~= b@.take(i as int).push(b@[i as int]));
        i = i + 1;
    }
    assert(a@ =~= a@.take(n as int));
    assert(b@ =~= b@.take(n as int));
    true
}

/// `s` up to the first position, at `k` or later, that holds no ASCII digit.
pub open spec fn digits_from(s: Seq<char>, k: int) -> Seq<char>
    decreases s.len() - k,
{
    if 0 <= k < s.len() && crate::number::is_digit(s[k]) {
        digits_from(s, k + 1)
    } else {
        s.take(k)
    }
}

/// The ASCII digits with which `s` begins.
pub open spec fn leading_digits(s: Seq<char>) -> Seq<char> {
    digits_from(s, 0)
}

/// The ASCII digits with which `s` begins.
pub fn take_leading_digits(s: &str) -> (r: String)
    ensures
        r@ == leading_digits(s@),
{
    let len = s.unicode_len();
    let mut k: usize = 0;
    while k < len && '0' <= s.get_char(k) && s.get_char(k) <= '9'
        invariant
            k <= len,
            len == s@.len(),
            digits_from(s@, k as int) == leading_digits(s@),
        decreases len - k,
    {
        k = k + 1;
    }
    String::from_str(s.substring_char(0, k))
}


/// Text without a `/` is a single piece.
pub proof fn lemma_segments_of_name(s: Seq<char>)
    requires
        !has_slash(s),
    ensures
        segments(s) == seq![s],
    decreases s.len(),
{
    if s.len() > 0 {
        assert(!has_slash(s.drop_last())) by {
            if has_slash(s.drop_last()) {
                let j = choose|j: int| 0 <= j < s.drop_last().len() && s.drop_last()[j] == '/';
                assert(s[j] == '/');
            }
        }
        lemma_segments_of_name(s.drop_last());
        assert(s.last() != '/') by {
            assert(s[s.len() - 1] == s.last());
        }
        assert(s.drop_last().push(s.last()) =~= s);
        assert(segments(s) =~= seq![s]);
    } else {
        assert(s =~= Seq::<char>::empty());
    }
}

/// Joining two texts with a `/` joins their pieces.
pub proof fn lemma_segments_join(a: Seq<char>, b: Seq<char>)
    ensures
        segments(a + seq!['/'] + b) == segments(a) + segments(b),
    decreases b.len(),
{
    let ab = a + seq!['/'] + b;
    if b.len() == 0 {
        assert(ab.drop_last() =~= a);
        assert(segments(a) + segments(b) =~= segments(a).push(Seq::empty()));
    } else {
        let b0 = b.drop_last();
        lemma_segments_join(a, b0);
        lemma_segments_nonempty(b0);
        assert(ab.drop_last() =~= a + seq!['/'] + b0);
        assert(ab.last() == b.last());
        if b.last() == '/' {
            assert(segments(a) + segments(b) =~= (segments(a) + segments(b0)).push(Seq::empty()));
        } else {
            let f = segments(b0);
            assert(segments(a) + segments(b) =~= (segments(a) + f).update(
                segments(a).len() + f.len() - 1,
                f.last().push(b.last()),
            ));
        }
    }
}

} // verus!
