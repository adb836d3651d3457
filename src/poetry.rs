use rand::Rng;
use vstd::prelude::*;

verus! {

/// A poem of the day, its author and a picture that goes with it.
#[derive(Debug, Clone, PartialEq, Eq)]
pub struct Poetry {
    pub poetry: String,
    pub author: String,
    pub img_url: String,
}

/// Relies on `rand::Rng::gen_range` over `0..n` on the thread-local
/// generator: a value in `0..n`; it panics on an empty range.
#[verifier::external_body]
fn random_below(n: usize) -> (r: usize)
    requires
        n > 0,
    ensures
        r < n,
{
    rand::thread_rng().gen_range(0..n)
}

/// The poem at `index`, if there is one.
pub fn poetry_at(poems: &Vec<Poetry>, index: usize) -> (r: Option<&Poetry>)
    ensures
        r == if index < poems@.len() {
            Some(&poems@[index as int])
        } else {
            None
        },
{
    if index < poems.len() {
        Some(&poems[index])
    } else {
        None
    }
}

/// A poem picked at random from `poems`; none only when there is none.
pub fn get_poetry(poems: &Vec<Poetry>) -> (r: Option<&Poetry>)
    ensures
        r is None <==> poems@.len() == 0,
        r matches Some(p) ==> exists|i: int| 0 <= i < poems@.len() && &poems@[i] == p,
{
    if poems.len() == 0 {
        return None;
    }
    let index = random_below(poems.len());
    poetry_at(poems, index)
}

} // verus!
