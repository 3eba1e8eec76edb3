use vstd::prelude::*;
use vstd::hash_map::StringHashMap;
use crate::value::Value;

verus! {

/// One record of a table: field names mapped to values.
pub struct Row {
    fields: StringHashMap<Value>,
}

/// The map that a list of (name, value) pairs describes; where a name
/// occurs twice, the later pair wins.
pub open spec fn pairs_map(pairs: Seq<(String, Value)>) -> Map<Seq<char>, Value>
    decreases pairs.len(),
{
    if pairs.len() == 0 {
        Map::empty()
    } else {
        pairs_map(pairs.drop_last()).insert(pairs.last().0@, pairs.last().1)
    }
}

impl View for Row {
    type V = Map<Seq<char>, Value>;

    closed spec fn view(&self) -> Map<Seq<char>, Value> {
        self.fields@
    }
}

impl Row {
    /// A record without fields.
    pub fn new() -> (r: Row)
        ensures
            r@ == Map::<Seq<char>, Value>::empty(),
    {
        Row { fields: StringHashMap::new() }
    }

    /// Sets the field `name` to `value`, replacing any value it had.
    pub fn insert(&mut self, name: String, value: Value)
        ensures
            final(self)@ == old(self)@.insert(name@, value),
    {
        self.fields.insert(name, value);
    }

    /// A record built from (name, value) pairs, inserted in order.
    pub fn from_pairs(pairs: Vec<(String, Value)>) -> (r: Row)
        ensures
            r@ == pairs_map(pairs@),
    {
        let mut row = Row::new();
        let ghost all = pairs@;
        let mut rest = pairs;
        assert(all.len() == rest.len());
        let mut k: usize = 0;
        while rest.len() > 0
            invariant
                k <= all.len() <= usize::MAX,
                rest@ == all.skip(k as int),
                row@ == pairs_map(all.take(k as int)),
            decreases rest.len(),
        {
            let (name, value) = rest.remove(0);
            proof {
                assert(all.take(k + 1).drop_last() =~= all.take(k as int));
                assert(rest@ =~= all.skip(k + 1));
            }
            row.insert(name, value);
            k = k + 1;
        }
        assert(all.take(all.len() as int) =~= all);
        row
    }

    /// The value of the field `name`, if the record has that field.
    pub fn get(&self, name: &str) -> (r: Option<&Value>)
        ensures
            match r {
                Some(v) => self@.contains_key(name@) && *v == self@[name@],
                None => !self@.contains_key(name@),
            },
    {
        self.fields.get(name)
    }

    /// Whether the record has the field `name`.
    pub fn contains_key(&self, name: &str) -> (r: bool)
        ensures
            r == self@.contains_key(name@),
    {
        self.fields.contains_key(name)
    }
}

} // verus!
