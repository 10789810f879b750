use vstd::prelude::*;
use rand::Rng;
use crate::common::ABILITY_COUNT;

verus! {

/// rand's per-thread generator, carried through without looking inside.
#[verifier::external_type_specification]
#[verifier::external_body]
pub struct ExThreadRng(rand::rngs::ThreadRng);

/// Relies on rand::thread_rng: hands out the generator of the current thread.
#[verifier::external_body]
fn thread_rng() -> rand::rngs::ThreadRng {
    rand::thread_rng()
}

/// Relies on rand::Rng::gen_range: a value drawn from `1..7`, that is one face
/// of a six-sided die.
#[verifier::external_body]
fn roll_d6(rng: &mut rand::rngs::ThreadRng) -> (r: usize)
    ensures
        1 <= r <= 6,
{
    rng.gen_range(1..7)
}

/// The smallest of four values.
pub open spec fn min4(f: Seq<usize>) -> int {
    let a = if f[0] <= f[1] { f[0] } else { f[1] };
    let b = if f[2] <= f[3] { f[2] } else { f[3] };
    if a <= b { a as int } else { b as int }
}

/// Sum of the three highest of four values.
pub open spec fn top_three_sum(f: Seq<usize>) -> int {
    f[0] + f[1] + f[2] + f[3] - min4(f)
}

/// Score of one ability from four die faces: the lowest face is dropped and
/// the other three are added.
pub fn roll_ability(faces: [usize; 4]) -> (r: usize)
    requires
        forall|i: int| 0 <= i < 4 ==> 1 <= #[trigger] faces@[i] <= 6,
    ensures
        r == top_three_sum(faces@),
        3 <= r <= 18,
{
    let a: usize = if faces[0] <= faces[1] {
        faces[0]
    } else {
        faces[1]
    };
    let b: usize = if faces[2] <= faces[3] {
        faces[2]
    } else {
        faces[3]
    };
    let lowest: usize = if a <= b {
        a
    } else {
        b
    };
    faces[0] + faces[1] + faces[2] + faces[3] - lowest
}

/// Rolls six ability scores, each the sum of the three highest of four
/// six-sided dice.
pub fn roll() -> (r: [usize; 6])
    ensures
        forall|i: int| 0 <= i < 6 ==> 3 <= #[trigger] r@[i] <= 18,
{
    let mut rng = thread_rng();
    let mut array: [usize; 6] = [0, 0, 0, 0, 0, 0];
    let mut i: usize = 0;
    while i < ABILITY_COUNT
        invariant
            i <= ABILITY_COUNT,
            forall|k: int| 0 <= k < i ==> 3 <= #[trigger] array@[k] <= 18,
        decreases ABILITY_COUNT - i,
    {
        let faces: [usize; 4] = [
            roll_d6(&mut rng),
            roll_d6(&mut rng),
            roll_d6(&mut rng),
            roll_d6(&mut rng),
        ];
        array[i] = roll_ability(faces);
        i = i + 1;
    }
    array
}

} // verus!
