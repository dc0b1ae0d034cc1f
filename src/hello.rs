//! A list of people that grows by one randomly chosen name at a time, and the
//! text that shows it.
use vstd::prelude::*;
use vstd::string::StringExecFns;
use rand::Rng;
use rand::rngs::StdRng;
use crate::text::{join_lines, lines_text, texts};

verus! {

#[verifier::external_type_specification]
#[verifier::external_body]
pub struct ExStdRng(StdRng);

/// Relies on rand's `Rng::gen_range` over `0..n`: the value lies in the range,
/// and the call panics when the range is empty.
#[verifier::external_body]
fn random_index(rng: &mut StdRng, n: usize) -> (r: usize)
    requires
        n > 0,
    ensures
        r < n,
{
    rng.gen_range(0..n)
}

/// Number of names that people are drawn from.
pub const ROSTER_LEN: usize = 3;

/// The names that people are drawn from.
pub open spec fn roster(i: int) -> Seq<char> {
    if i == 0 {
        "Elaina Proctor"@
    } else if i == 1 {
        "Renzo Hume"@
    } else {
        "Zayna Nieves"@
    }
}

/// The `i`-th name of the roster.
pub fn roster_name(i: usize) -> (r: &'static str)
    requires
        i < ROSTER_LEN,
    ensures
        r@ == roster(i as int),
{
    if i == 0 {
        "Elaina Proctor"
    } else if i == 1 {
        "Renzo Hume"
    } else {
        "Zayna Nieves"
    }
}

/// The people who have arrived so far, in order of arrival.
pub struct PeopleList {
    pub names: Vec<String>,
}

impl View for PeopleList {
    type V = Seq<Seq<char>>;

    open spec fn view(&self) -> Seq<Seq<char>> {
        texts(self.names@)
    }
}

impl PeopleList {
    /// A list with nobody in it.
    pub fn new() -> (r: Self)
        ensures
            r@ == Seq::<Seq<char>>::empty(),
    {
        let r = PeopleList { names: Vec::new() };
        assert(r@ =~= Seq::<Seq<char>>::empty());
        r
    }

    /// Adds the person with the `i`-th name of the roster.
    pub fn add_person(&mut self, i: usize)
        requires
            i < ROSTER_LEN,
        ensures
            final(self)@ == old(self)@.push(roster(i as int)),
    {
        let name = String::from_str(roster_name(i));
        self.names.push(name);
        assert(self@ =~= old(self)@.push(roster(i as int)));
    }

    /// Adds a person whose name is drawn at random from the roster.
    pub fn add_random_person(&mut self, rng: &mut StdRng)
        ensures
            exists|i: int|
                0 <= i < ROSTER_LEN && final(self)@ == old(self)@.push(#[trigger] roster(i)),
    {
        let i: usize = random_index(rng, ROSTER_LEN);
        self.add_person(i);
    }

    /// The names, one per line.
    pub fn render_names(&self) -> (r: String)
        ensures
            r@ == lines_text(self@),
    {
        join_lines(&self.names)
    }
}

} // verus!
