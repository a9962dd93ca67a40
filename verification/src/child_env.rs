//! The environment handed to the backend process: a mapping from variable names to values.

use vstd::prelude::*;
use crate::config::{DATA_DIR_VAR, PORT_VAR, STOCKFISH_PATH_VAR};
use crate::text::same_text;

verus! {

/// The mapping that a list of (name, value) pairs stands for. Where a name occurs twice,
/// the later pair decides.
pub open spec fn pairs_to_map(pairs: Seq<(String, String)>) -> Map<Seq<char>, Seq<char>>
    decreases pairs.len(),
{
    if pairs.len() == 0 {
        Map::empty()
    } else {
        pairs_to_map(pairs.drop_last()).insert(pairs.last().0@, pairs.last().1@)
    }
}

/// No two pairs of the list carry the same name.
pub open spec fn distinct_names(pairs: Seq<(String, String)>) -> bool {
    forall|i: int, j: int|
        0 <= i < j < pairs.len() ==> (#[trigger] pairs[i]).0@ != (#[trigger] pairs[j]).0@
}

/// Some pair of the list carries `name`.
pub open spec fn names(pairs: Seq<(String, String)>, name: Seq<char>) -> bool {
    exists|i: int| 0 <= i < pairs.len() && (#[trigger] pairs[i]).0@ == name
}

/// A name is in the mapping exactly when some pair carries it.
pub proof fn lemma_domain(pairs: Seq<(String, String)>, name: Seq<char>)
    ensures
        pairs_to_map(pairs).contains_key(name) <==> names(pairs, name),
    decreases pairs.len(),
{
    if pairs.len() > 0 {
        let front = pairs.drop_last();
        lemma_domain(front, name);
        if names(front, name) {
            let i = choose|i: int| 0 <= i < front.len() && (#[trigger] front[i]).0@ == name;
            assert(pairs[i].0@ == name);
        }
        if pairs.last().0@ == name {
            assert(pairs[pairs.len() - 1].0@ == name);
        }
        if names(pairs, name) {
            let i = choose|i: int| 0 <= i < pairs.len() && (#[trigger] pairs[i]).0@ == name;
            if i < pairs.len() - 1 {
                assert(front[i].0@ == name);
            }
        }
    }
}

/// Where names are distinct, each pair's name maps to that pair's value.
pub proof fn lemma_value(pairs: Seq<(String, String)>, i: int)
    requires
        distinct_names(pairs),
        0 <= i < pairs.len(),
    ensures
        pairs_to_map(pairs).contains_key(pairs[i].0@),
        pairs_to_map(pairs)[pairs[i].0@] == pairs[i].1@,
    decreases pairs.len(),
{
    if i < pairs.len() - 1 {
        let front = pairs.drop_last();
        assert forall|a: int, b: int| 0 <= a < b < front.len() implies (#[trigger] front[a]).0@ != (
        #[trigger] front[b]).0@ by {
            assert(pairs[a].0@ != pairs[b].0@);
        }
        lemma_value(front, i);
        assert(pairs[i].0@ != pairs[pairs.len() - 1].0@);
    }
}

/// Where names are distinct, the mapping has as many entries as the list has pairs.
pub proof fn lemma_size(pairs: Seq<(String, String)>)
    requires
        distinct_names(pairs),
    ensures
        pairs_to_map(pairs).dom().finite(),
        pairs_to_map(pairs).dom().len() == pairs.len(),
    decreases pairs.len(),
{
    if pairs.len() > 0 {
        let front = pairs.drop_last();
        let name = pairs.last().0@;
        assert forall|a: int, b: int| 0 <= a < b < front.len() implies (#[trigger] front[a]).0@ != (
        #[trigger] front[b]).0@ by {
            assert(pairs[a].0@ != pairs[b].0@);
        }
        lemma_size(front);
        lemma_domain(front, name);
        if names(front, name) {
            let i = choose|i: int| 0 <= i < front.len() && (#[trigger] front[i]).0@ == name;
            assert(pairs[i].0@ != pairs[pairs.len() - 1].0@);
        }
        assert(pairs_to_map(pairs).dom() =~= pairs_to_map(front).dom().insert(name));
    }
}

/// Replacing the value of the pair at `i`, under the same name, sets that name in the mapping.
pub proof fn lemma_replace(pairs: Seq<(String, String)>, i: int, name: String, value: String)
    requires
        distinct_names(pairs),
        0 <= i < pairs.len(),
        pairs[i].0@ == name@,
    ensures
        distinct_names(pairs.update(i, (name, value))),
        pairs_to_map(pairs.update(i, (name, value))) == pairs_to_map(pairs).insert(
            name@,
            value@,
        ),
{
    let after = pairs.update(i, (name, value));
    assert forall|a: int, b: int| 0 <= a < b < after.len() implies (#[trigger] after[a]).0@ != (
    #[trigger] after[b]).0@ by {
        assert(pairs[a].0@ != pairs[b].0@);
        assert(after[a].0@ == pairs[a].0@);
        assert(after[b].0@ == pairs[b].0@);
    }
    let lhs = pairs_to_map(after);
    let rhs = pairs_to_map(pairs).insert(name@, value@);
    assert forall|k: Seq<char>| lhs.contains_key(k) <==> rhs.contains_key(k) by {
        lemma_domain(after, k);
        lemma_domain(pairs, k);
        lemma_value(pairs, i);
        if names(after, k) {
            let j = choose|j: int| 0 <= j < after.len() && (#[trigger] after[j]).0@ == k;
            assert(pairs[j].0@ == k);
        }
        if names(pairs, k) {
            let j = choose|j: int| 0 <= j < pairs.len() && (#[trigger] pairs[j]).0@ == k;
            assert(after[j].0@ == k);
        }
    }
    assert forall|k: Seq<char>| lhs.contains_key(k) implies lhs[k] == rhs[k] by {
        lemma_domain(after, k);
        let j = choose|j: int| 0 <= j < after.len() && (#[trigger] after[j]).0@ == k;
        lemma_value(after, j);
        lemma_value(pairs, j);
        if j != i {
            assert(after[j] == pairs[j]);
            if j < i {
                assert(pairs[j].0@ != pairs[i].0@);
            } else {
                assert(pairs[i].0@ != pairs[j].0@);
            }
        }
    }
    assert(lhs =~= rhs);
}

/// Appending a pair under a name that no pair carries sets that name in the mapping.
pub proof fn lemma_append(pairs: Seq<(String, String)>, name: String, value: String)
    requires
        distinct_names(pairs),
        !names(pairs, name@),
    ensures
        distinct_names(pairs.push((name, value))),
        pairs_to_map(pairs.push((name, value))) == pairs_to_map(pairs).insert(name@, value@),
{
    let after = pairs.push((name, value));
    assert forall|a: int, b: int| 0 <= a < b < after.len() implies (#[trigger] after[a]).0@ != (
    #[trigger] after[b]).0@ by {
        if b < pairs.len() {
            assert(pairs[a].0@ != pairs[b].0@);
        } else {
            assert(pairs[a].0@ != name@);
        }
    }
    assert(after.drop_last() =~= pairs);
}

/// The variables given to the backend process. Each name occurs once.
pub struct ChildEnv {
    entries: Vec<(String, String)>,
}

impl View for ChildEnv {
    type V = Map<Seq<char>, Seq<char>>;

    closed spec fn view(&self) -> Map<Seq<char>, Seq<char>> {
        pairs_to_map(self.entries@)
    }
}

impl ChildEnv {
    #[verifier::type_invariant]
    spec fn names_occur_once(self) -> bool {
        distinct_names(self.entries@)
    }

    /// An environment without variables.
    pub fn new() -> (env: ChildEnv)
        ensures
            env@ == Map::<Seq<char>, Seq<char>>::empty(),
    {
        ChildEnv { entries: Vec::new() }
    }

    /// Where `name` stands among the entries, if it does.
    fn position(&self, name: &str) -> (found: Option<usize>)
        ensures
            match found {
                Some(i) => i < self.entries@.len() && self.entries@[i as int].0@ == name@,
                None => !names(self.entries@, name@),
            },
    {
        let n: usize = self.entries.len();
        let mut i: usize = 0;
        while i < n
            invariant
                i <= n,
                n == self.entries@.len(),
                forall|j: int| 0 <= j < i ==> (#[trigger] self.entries@[j]).0@ != name@,
            decreases n - i,
        {
            if same_text(self.entries[i].0.as_str(), name) {
                return Some(i);
            }
            i += 1;
        }
        None
    }

    /// Sets `name` to `value`, replacing the value that `name` had, if any.
    pub fn insert(&mut self, name: String, value: String)
        ensures
            final(self)@ == old(self)@.insert(name@, value@),
    {
        let found = self.position(name.as_str());
        let mut taken = ChildEnv::new();
        core::mem::swap(self, &mut taken);
        proof {
            use_type_invariant(&taken);
        }
        let mut entries = taken.entries;
        match found {
            Some(i) => {
                proof {
                    lemma_replace(entries@, i as int, name, value);
                }
                entries.set(i, (name, value));
            },
            None => {
                proof {
                    lemma_append(entries@, name, value);
                }
                entries.push((name, value));
            },
        }
        *self = ChildEnv { entries };
    }

    /// The value of `name`, if the environment holds it.
    pub fn get(&self, name: &str) -> (value: Option<&String>)
        ensures
            match value {
                Some(v) => self@.contains_key(name@) && v@ == self@[name@],
                None => !self@.contains_key(name@),
            },
    {
        proof {
            use_type_invariant(self);
            lemma_domain(self.entries@, name@);
        }
        match self.position(name) {
            Some(i) => {
                proof {
                    lemma_value(self.entries@, i as int);
                }
                Some(&self.entries[i].1)
            },
            None => None,
        }
    }

    /// Whether the environment holds `name`.
    pub fn contains(&self, name: &str) -> (held: bool)
        ensures
            held == self@.contains_key(name@),
    {
        proof {
            lemma_domain(self.entries@, name@);
        }
        self.position(name).is_some()
    }

    /// How many variables the environment holds.
    pub fn len(&self) -> (count: usize)
        ensures
            self@.dom().finite(),
            count == self@.len(),
    {
        proof {
            use_type_invariant(self);
            lemma_size(self.entries@);
        }
        self.entries.len()
    }

    /// The variables as (name, value) pairs, each name once, for handing to a process builder.
    pub fn into_pairs(self) -> (pairs: Vec<(String, String)>)
        ensures
            distinct_names(pairs@),
            pairs_to_map(pairs@) == self@,
    {
        proof {
            use_type_invariant(&self);
        }
        self.entries
    }
}

/// The environment of the backend: the port and the data directory always, the engine's path
/// where one was given.
pub open spec fn assembled(
    port: Seq<char>,
    data_dir: Seq<char>,
    stockfish_path: Option<Seq<char>>,
) -> Map<Seq<char>, Seq<char>> {
    let required = Map::<Seq<char>, Seq<char>>::empty().insert(PORT_VAR@, port).insert(
        DATA_DIR_VAR@,
        data_dir,
    );
    match stockfish_path {
        Some(path) => required.insert(STOCKFISH_PATH_VAR@, path),
        None => required,
    }
}

/// Builds the environment of the backend from the resolved port and data directory and from
/// the value of the engine's variable, `None` standing for unset.
pub fn assemble_env(port: &str, data_dir: &str, stockfish_path: Option<String>) -> (env: ChildEnv)
    ensures
        env@ == assembled(port@, data_dir@, stockfish_path.deep_view()),
{
    let mut env = ChildEnv::new();
    env.insert(String::from_str(PORT_VAR), String::from_str(port));
    env.insert(String::from_str(DATA_DIR_VAR), String::from_str(data_dir));
    match stockfish_path {
        Some(path) => {
            env.insert(String::from_str(STOCKFISH_PATH_VAR), path);
        },
        None => {},
    }
    env
}

/// The three variable names differ from one another.
pub proof fn variable_names_differ()
    ensures
        PORT_VAR@ != DATA_DIR_VAR@,
        PORT_VAR@ != STOCKFISH_PATH_VAR@,
        DATA_DIR_VAR@ != STOCKFISH_PATH_VAR@,
{
    reveal_strlit("PORT");
    reveal_strlit("DATA_DIR");
    reveal_strlit("STOCKFISH_PATH");
    assert(PORT_VAR@.len() == 4);
    assert(DATA_DIR_VAR@.len() == 8);
    assert(STOCKFISH_PATH_VAR@.len() == 14);
}

/// The assembled environment always holds the port and the data directory, with the values
/// given. It holds the engine's path exactly when one was given, with that value. It holds
/// nothing else.
pub proof fn assembled_holds_what_was_given(
    port: Seq<char>,
    data_dir: Seq<char>,
    stockfish_path: Option<Seq<char>>,
)
    ensures
        assembled(port, data_dir, stockfish_path).contains_key(PORT_VAR@),
        assembled(port, data_dir, stockfish_path)[PORT_VAR@] == port,
        assembled(port, data_dir, stockfish_path).contains_key(DATA_DIR_VAR@),
        assembled(port, data_dir, stockfish_path)[DATA_DIR_VAR@] == data_dir,
        assembled(port, data_dir, stockfish_path).contains_key(STOCKFISH_PATH_VAR@)
            <==> stockfish_path is Some,
        stockfish_path matches Some(path) ==> assembled(
            port,
            data_dir,
            stockfish_path,
        )[STOCKFISH_PATH_VAR@] == path,
        forall|name: Seq<char>| #[trigger]
            assembled(port, data_dir, stockfish_path).contains_key(name) ==> name == PORT_VAR@
                || name == DATA_DIR_VAR@ || name == STOCKFISH_PATH_VAR@,
        assembled(port, data_dir, stockfish_path).dom().finite(),
        assembled(port, data_dir, stockfish_path).len() == if stockfish_path is Some {
            3nat
        } else {
            2nat
        },
{
    variable_names_differ();
    let two = Map::<Seq<char>, Seq<char>>::empty().insert(PORT_VAR@, port).insert(
        DATA_DIR_VAR@,
        data_dir,
    );
    assert(two.dom() =~= set![PORT_VAR@, DATA_DIR_VAR@]);
    if stockfish_path is Some {
        assert(assembled(port, data_dir, stockfish_path).dom() =~= set![
            PORT_VAR@,
            DATA_DIR_VAR@,
            STOCKFISH_PATH_VAR@,
        ]);
    }
}

} // verus!
