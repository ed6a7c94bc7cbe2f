//! The secret part of the reveal panel's run-list path: six characters
//! drawn at random from the letters and digits.
use vstd::prelude::*;
use rand::rngs::ThreadRng;

verus! {

#[verifier::external_type_specification]
#[verifier::external_body]
pub struct ExThreadRng(rand::rngs::ThreadRng);

/// How many characters the secret path part has.
pub const PASSWORD_LEN: usize = 6;

/// The characters that the secret path part is drawn from.
pub open spec fn path_charset() -> Seq<char> {
    "ABCDEFGHIJKLMNOPQRSTUVWXYZabcdefghijklmnopqrstuvwxyz0123456789"@
}

fn charset() -> (cs: &'static str)
    ensures
        cs@ == path_charset(),
        cs@.len() == 62,
{
    let cs = "ABCDEFGHIJKLMNOPQRSTUVWXYZabcdefghijklmnopqrstuvwxyz0123456789";
    proof {
        reveal_strlit("ABCDEFGHIJKLMNOPQRSTUVWXYZabcdefghijklmnopqrstuvwxyz0123456789");
    }
    cs
}

/// Calls `rand::thread_rng`, the generator of the current thread.
#[verifier::external_body]
fn new_rng() -> (rng: ThreadRng) {
    rand::thread_rng()
}

/// Calls `rand::Rng::gen_range`, which draws a value in `[low, high)` and
/// panics unless `low < high`; the contract claims only that range, not
/// which value comes.
#[verifier::external_body]
fn gen_index(rng: &mut ThreadRng, low: usize, high: usize) -> (r: usize)
    requires
        low < high,
    ensures
        low <= r < high,
{
    rand::Rng::gen_range(rng, low, high)
}

/// Calls `String::push`, which appends one character.
#[verifier::external_body]
fn push_char(s: &mut String, c: char)
    ensures
        final(s)@ == old(s)@.push(c),
{
    s.push(c)
}

/// The path part that the given draws select: one character of the
/// charset per draw, in order.
pub open spec fn path_from_draws(draws: Seq<usize>) -> Seq<char> {
    draws.map_values(|i: usize| path_charset()[i as int])
}

/// Builds the path part that the given draws select.
pub fn path_part_from_indices(draws: &Vec<usize>) -> (part: String)
    requires
        forall|k: int| 0 <= k < draws@.len() ==> draws@[k] < path_charset().len(),
    ensures
        part@ == path_from_draws(draws@),
{
    let cs = charset();
    let mut part = String::new();
    let mut k: usize = 0;
    while k < draws.len()
        invariant
            0 <= k <= draws@.len(),
            cs@ == path_charset(),
            forall|j: int| 0 <= j < draws@.len() ==> draws@[j] < path_charset().len(),
            part@ == path_from_draws(draws@.subrange(0, k as int)),
        decreases draws@.len() - k,
    {
        let c = cs.get_char(draws[k]);
        push_char(&mut part, c);
        assert(draws@.subrange(0, (k + 1) as int) =~= draws@.subrange(0, k as int).push(draws@[k as int]));
        assert(path_from_draws(draws@.subrange(0, (k + 1) as int)) =~= path_from_draws(draws@.subrange(0, k as int)).push(c));
        k = k + 1;
    }
    assert(draws@.subrange(0, draws@.len() as int) =~= draws@);
    part
}

/// A fresh secret path part: `PASSWORD_LEN` characters, each drawn at
/// random from the charset.
pub fn random_path_part() -> (part: String)
    ensures
        part@.len() == PASSWORD_LEN,
        forall|k: int| 0 <= k < part@.len() ==> path_charset().contains(#[trigger] part@[k]),
{
    let cs = charset();
    let len: usize = cs.unicode_len();
    let mut rng = new_rng();
    let mut draws: Vec<usize> = Vec::new();
    let mut k: usize = 0;
    while k < PASSWORD_LEN
        invariant
            0 <= k <= PASSWORD_LEN,
            len == 62,
            path_charset().len() == 62,
            draws@.len() == k,
            forall|j: int| 0 <= j < draws@.len() ==> draws@[j] < path_charset().len(),
        decreases PASSWORD_LEN - k,
    {
        let idx: usize = gen_index(&mut rng, 0, len);
        draws.push(idx);
        k = k + 1;
    }
    let part = path_part_from_indices(&draws);
    assert forall|k: int| 0 <= k < part@.len() implies path_charset().contains(#[trigger] part@[k]) by {
        assert(part@[k] == path_charset()[draws@[k] as int]);
    }
    part
}

/// Every path part of `PASSWORD_LEN` charset characters is what some draws,
/// each within the charset, select: no part is out of reach of the draws.
pub proof fn lemma_every_part_reachable(part: Seq<char>)
    requires
        part.len() == PASSWORD_LEN,
        forall|k: int| 0 <= k < part.len() ==> path_charset().contains(#[trigger] part[k]),
    ensures
        exists|draws: Seq<usize>| {
            &&& draws.len() == PASSWORD_LEN
            &&& forall|k: int| 0 <= k < draws.len() ==> #[trigger] draws[k] < path_charset().len()
            &&& path_from_draws(draws) == part
        },
{
    reveal_strlit("ABCDEFGHIJKLMNOPQRSTUVWXYZabcdefghijklmnopqrstuvwxyz0123456789");
    let cs = path_charset();
    let draws = Seq::new(part.len(), |k: int| (choose|j: int| 0 <= j < cs.len() && cs[j] == part[k]) as usize);
    assert forall|k: int| 0 <= k < draws.len() implies #[trigger] draws[k] < cs.len() && cs[draws[k] as int] == part[k] by {
        assert(cs.contains(part[k]));
    }
    assert(path_from_draws(draws) =~= part);
}

} // verus!
