use vstd::prelude::*;

verus! {

/// The query parameter that asks the simulator to behave as if WebGPU were missing.
pub open spec fn simulate_unavailable_parameter() -> Seq<char> {
    seq!['s', 'i', 'm', 'u', 'l', 'a', 't', 'e', '_', 'w', 'e', 'b', 'g', 'p', 'u', '_',
        'u', 'n', 'a', 'v', 'a', 'i', 'l', 'a', 'b', 'l', 'e', '=', '1']
}

/// Number of leading `'?'` characters of `s`.
pub open spec fn leading_question_marks(s: Seq<char>) -> nat
    decreases s.len(),
{
    if s.len() > 0 && s[0] == '?' {
        1 + leading_question_marks(s.drop_first())
    } else {
        0
    }
}

/// `s` with every leading `'?'` removed.
pub open spec fn trim_leading_question_marks(s: Seq<char>) -> Seq<char> {
    s.skip(leading_question_marks(s) as int)
}

/// `s[start..end]` is one of the `'&'`-separated parameters of `s`.
pub open spec fn is_parameter_span(s: Seq<char>, start: int, end: int) -> bool {
    &&& 0 <= start <= end <= s.len()
    &&& start == 0 || s[start - 1] == '&'
    &&& end == s.len() || s[end] == '&'
    &&& forall|k: int| start <= k < end ==> s[k] != '&'
}

/// Some `'&'`-separated parameter of the query (after its leading `'?'`s) is
/// exactly `simulate_webgpu_unavailable=1`.
pub open spec fn requests_simulated_unavailability(query: Seq<char>) -> bool {
    let params = trim_leading_question_marks(query);
    exists|start: int, end: int|
        is_parameter_span(params, start, end)
            && #[trigger] params.subrange(start, end) == simulate_unavailable_parameter()
}

} // verus!

verus! {

fn chars_of(s: &str) -> (chars: Vec<char>)
    ensures
        chars@ == s@,
{
    let mut chars: Vec<char> = Vec::new();
    for c in it: s.chars()
        invariant
            chars@ == it.seq().take(it.index() as int),
    {
        chars.push(c);
    }
    chars
}

proof fn lemma_leading_question_marks(s: Seq<char>, i: int)
    requires
        0 <= i <= s.len(),
        forall|k: int| 0 <= k < i ==> s[k] == '?',
        i == s.len() || s[i] != '?',
    ensures
        leading_question_marks(s) == i,
    decreases s.len(),
{
    if s.len() > 0 && s[0] == '?' {
        assert(i > 0);
        let rest = s.drop_first();
        assert forall|k: int| 0 <= k < i - 1 implies rest[k] == '?' by {
            assert(rest[k] == s[k + 1]);
        }
        if i - 1 < rest.len() {
            assert(rest[i - 1] == s[i]);
        }
        lemma_leading_question_marks(rest, i - 1);
    }
}

/// Length of the run of `'?'` characters that opens `chars`.
fn count_leading_question_marks(chars: &Vec<char>) -> (count: usize)
    ensures
        count == leading_question_marks(chars@),
        count <= chars@.len(),
{
    let mut count: usize = 0;
    while count < chars.len() && chars[count] == '?'
        invariant
            count <= chars@.len(),
            forall|k: int| 0 <= k < count ==> chars@[k] == '?',
        decreases chars@.len() - count,
    {
        count = count + 1;
    }
    proof {
        lemma_leading_question_marks(chars@, count as int);
    }
    count
}

/// Whether `chars[start..end]` spells exactly `expected`.
fn span_equals(chars: &Vec<char>, start: usize, end: usize, expected: &Vec<char>) -> (equal: bool)
    requires
        start <= end <= chars@.len(),
    ensures
        equal == (chars@.subrange(start as int, end as int) == expected@),
{
    if end - start != expected.len() {
        return false;
    }
    let mut k: usize = 0;
    while k < expected.len()
        invariant
            start <= end <= chars@.len(),
            end - start == expected@.len(),
            k <= expected@.len(),
            forall|m: int| 0 <= m < k ==> chars@[start + m] == expected@[m],
        decreases expected@.len() - k,
    {
        if chars[start + k] != expected[k] {
            assert(chars@.subrange(start as int, end as int)[k as int] != expected@[k as int]);
            return false;
        }
        k = k + 1;
    }
    assert(chars@.subrange(start as int, end as int) =~= expected@);
    true
}

/// Decides whether the page's query string (`location.search`) asks for the
/// WebGPU-unavailable screen to be shown as a development test: after its
/// leading `'?'`s, one of its `'&'`-separated parameters must be exactly
/// `simulate_webgpu_unavailable=1`.
pub fn should_simulate_webgpu_unavailable(query_string: &str) -> (simulate: bool)
    ensures
        simulate == requests_simulated_unavailability(query_string@),
{
    let query = chars_of(query_string);
    let expected = chars_of("simulate_webgpu_unavailable=1");
    proof {
        reveal_strlit("simulate_webgpu_unavailable=1");
        assert(expected@ =~= simulate_unavailable_parameter());
    }
    let skipped = count_leading_question_marks(&query);
    let mut params: Vec<char> = Vec::new();
    let mut i: usize = skipped;
    while i < query.len()
        invariant
            skipped <= i <= query@.len(),
            params@ == query@.subrange(skipped as int, i as int),
        decreases query@.len() - i,
    {
        params.push(query[i]);
        i = i + 1;
    }
    let ghost p = params@;
    assert(p =~= trim_leading_question_marks(query@));
    let mut start: usize = 0;
    let mut j: usize = 0;
    while j < params.len()
        invariant
            p == params@,
            p == trim_leading_question_marks(query@),
            query@ == query_string@,
            expected@ == simulate_unavailable_parameter(),
            start <= j <= p.len(),
            start == 0 || p[start - 1] == '&',
            forall|k: int| start <= k < j ==> p[k] != '&',
            forall|s0: int, e0: int|
                is_parameter_span(p, s0, e0) && e0 < start
                    ==> #[trigger] p.subrange(s0, e0) != simulate_unavailable_parameter(),
        decreases p.len() - j,
    {
        if params[j] == '&' {
            if span_equals(&params, start, j, &expected) {
                assert(is_parameter_span(p, start as int, j as int));
                assert(p.subrange(start as int, j as int) == simulate_unavailable_parameter());
                return true;
            }
            proof {
                lemma_only_span_ending_at(p, start as int, j as int);
            }
            start = j + 1;
        }
        j = j + 1;
    }
    let matched = span_equals(&params, start, j, &expected);
    if matched {
        assert(is_parameter_span(p, start as int, j as int));
        assert(p.subrange(start as int, j as int) == simulate_unavailable_parameter());
    } else {
        proof {
            lemma_only_span_ending_at(p, start as int, j as int);
        }
    }
    matched
}

/// Within a stretch `[start, end)` free of `'&'` that opens after a separator,
/// the only parameter span that ends at or before `end` and not before `start`
/// is `[start, end)` itself; so once that one is ruled out, every span ending
/// before `end + 1` is.
proof fn lemma_only_span_ending_at(p: Seq<char>, start: int, end: int)
    requires
        0 <= start <= end <= p.len(),
        start == 0 || p[start - 1] == '&',
        forall|k: int| start <= k < end ==> p[k] != '&',
        forall|s0: int, e0: int|
            is_parameter_span(p, s0, e0) && e0 < start
                ==> #[trigger] p.subrange(s0, e0) != simulate_unavailable_parameter(),
        p.subrange(start, end) != simulate_unavailable_parameter(),
    ensures
        forall|s0: int, e0: int|
            is_parameter_span(p, s0, e0) && e0 < end + 1
                ==> #[trigger] p.subrange(s0, e0) != simulate_unavailable_parameter(),
{
    assert forall|s0: int, e0: int|
        is_parameter_span(p, s0, e0) && e0 < end + 1
            implies #[trigger] p.subrange(s0, e0) != simulate_unavailable_parameter() by {
        if e0 >= start {
            if e0 < end {
                assert(p[e0] != '&');
            }
            assert(e0 == end);
            if s0 < start {
                assert(p[start - 1] != '&');
            }
            if s0 > start {
                assert(p[s0 - 1] != '&');
            }
            assert(s0 == start);
        }
    }
}

} // verus!
