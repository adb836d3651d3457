use vstd::prelude::*;

verus! {

/// One card that was kept: the poem, its author and the picture.
#[derive(Debug, Clone, PartialEq, Eq)]
pub struct SavedResult {
    pub poetry: String,
    pub author: String,
    pub img_url: String,
}

/// The list of kept cards with one more at the end.
pub fn push_saved(
    saved: Vec<SavedResult>,
    poetry: &str,
    author: &str,
    img_url: &str,
) -> (r: Vec<SavedResult>)
    ensures
        r@.len() == saved@.len() + 1,
        r@.subrange(0, saved@.len() as int) == saved@,
        r@.last().poetry@ == poetry@,
        r@.last().author@ == author@,
        r@.last().img_url@ == img_url@,
{
    let mut r = saved;
    r.push(
        SavedResult {
            poetry: poetry.to_string(),
            author: author.to_string(),
            img_url: img_url.to_string(),
        },
    );
    assert(r@.subrange(0, saved@.len() as int) =~= saved@);
    r
}

/// What follows the last `/` of `s`; all of `s` when it has none.
pub open spec fn last_segment(s: Seq<char>) -> Seq<char>
    decreases s.len(),
{
    if s.len() == 0 {
        s
    } else if s.last() == '/' {
        Seq::empty()
    } else {
        last_segment(s.drop_last()).push(s.last())
    }
}

proof fn lemma_last_segment(s: Seq<char>, start: int)
    requires
        0 <= start <= s.len(),
        start == 0 || s[start - 1] == '/',
        forall|i: int| start <= i < s.len() ==> s[i] != '/',
    ensures
        last_segment(s) == s.subrange(start, s.len() as int),
    decreases s.len(),
{
    if s.len() > start {
        let t = s.drop_last();
        assert forall|i: int| start <= i < t.len() implies t[i] != '/' by {
            assert(t[i] == s[i]);
        }
        if start > 0 {
            assert(t[start - 1] == s[start - 1]);
        }
        lemma_last_segment(t, start);
        assert(s.subrange(start, s.len() as int) =~= t.subrange(start, t.len() as int).push(
            s.last(),
        ));
    } else if start > 0 {
        assert(s.last() == '/');
        assert(s.subrange(start, s.len() as int) =~= Seq::<char>::empty());
    } else {
        assert(s.subrange(start, s.len() as int) =~= s);
    }
}

/// Where a downloaded picture is stored: `./images/` and the last path
/// segment of its address.
pub fn image_file_path(url: &str) -> (r: String)
    ensures
        r@ == "./images/"@ + last_segment(url@),
{
    let n = url.unicode_len();
    let mut start = n;
    while start > 0 && url.get_char(start - 1) != '/'
        invariant
            start <= n,
            n == url@.len(),
            forall|i: int| start <= i < n ==> url@[i] != '/',
        decreases start,
    {
        start = start - 1;
    }
    proof {
        lemma_last_segment(url@, start as int);
    }
    "./images/".to_string().concat(url.substring_char(start, n))
}

} // verus!
