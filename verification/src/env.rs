//! A snapshot of process environment variables, captured once and looked up
//! by name.
use vstd::prelude::*;

verus! {

/// Name/value pairs of environment variables; a later pair for the same
/// name overrides an earlier one.
pub struct EnvSnapshot {
    vars: Vec<(String, String)>,
}

/// The value that `vars` gives to `name`: the value of the last pair with
/// that name.
pub open spec fn env_lookup(vars: Seq<(Seq<char>, Seq<char>)>, name: Seq<char>) -> Option<Seq<char>>
    decreases vars.len(),
{
    if vars.len() == 0 {
        None
    } else if vars.last().0 == name {
        Some(vars.last().1)
    } else {
        env_lookup(vars.drop_last(), name)
    }
}

/// Reading a variable gives back the value last set for it, and setting
/// one variable leaves every other variable as it was.
pub proof fn lemma_lookup_after_set(
    vars: Seq<(Seq<char>, Seq<char>)>,
    name: Seq<char>,
    value: Seq<char>,
    other: Seq<char>,
)
    ensures
        env_lookup(vars.push((name, value)), name) == Some(value),
        other != name ==> env_lookup(vars.push((name, value)), other) == env_lookup(vars, other),
{
    assert(vars.push((name, value)).drop_last() =~= vars);
}

impl View for EnvSnapshot {
    type V = Seq<(Seq<char>, Seq<char>)>;

    closed spec fn view(&self) -> Seq<(Seq<char>, Seq<char>)> {
        self.vars@.map_values(|p: (String, String)| (p.0@, p.1@))
    }
}

impl EnvSnapshot {
    /// A snapshot without variables.
    pub fn new() -> (r: EnvSnapshot)
        ensures
            r@ == Seq::<(Seq<char>, Seq<char>)>::empty(),
    {
        EnvSnapshot { vars: Vec::new() }
    }

    /// Records that `name` has the value `value`.
    pub fn set(&mut self, name: &str, value: &str)
        ensures
            final(self)@ == old(self)@.push((name@, value@)),
    {
        self.vars.push((name.to_owned(), value.to_owned()));
        assert(self@ =~= old(self)@.push((name@, value@)));
    }

    /// The value of `name`, if the snapshot holds one.
    pub fn get(&self, name: &str) -> (r: Option<String>)
        ensures
            r.deep_view() == env_lookup(self@, name@),
    {
        let key = name.to_owned();
        let n = self.vars.len();
        let mut found: Option<String> = None;
        let mut i: usize = 0;
        while i < n
            invariant
                n == self.vars@.len(),
                i <= n,
                key@ == name@,
                found.deep_view() == env_lookup(self@.take(i as int), name@),
            decreases n - i,
        {
            let entry = &self.vars[i];
            if entry.0 == key {
                found = Some(entry.1.clone());
            }
            proof {
                assert(self@.take(i + 1).drop_last() =~= self@.take(i as int));
            }
            i = i + 1;
        }
        proof {
            assert(self@.take(n as int) =~= self@);
        }
        found
    }
}

} // verus!
