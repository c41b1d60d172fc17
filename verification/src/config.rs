use vstd::prelude::*;

verus! {

/// One expectation on a bucket: under `prefix` there is an object younger than
/// `age` seconds and, where `size` is positive, none of the young ones is
/// smaller than `size` bytes.
#[derive(Debug, PartialEq, Eq)]
pub struct Object {
    pub prefix: String,
    pub age: i64,
    pub size: i64,
}

impl Clone for Object {
    fn clone(&self) -> (copy: Object)
        ensures
            copy == *self,
    {
        Object { prefix: self.prefix.clone(), age: self.age, size: self.size }
    }
}

/// A bucket's name with the expectations placed on it.
#[derive(Debug, Clone, PartialEq, Eq)]
pub struct Bucket {
    pub name: String,
    pub objects: Vec<Object>,
}

/// Where the buckets live, how to sign requests, and what to expect in each
/// bucket.
#[derive(Debug, Clone, PartialEq, Eq)]
pub struct Data {
    pub endpoint: String,
    pub region: String,
    pub access_key: String,
    pub secret_key: String,
    pub buckets: Vec<Bucket>,
}

impl Data {
    /// No two buckets bear the same name.
    pub open spec fn well_formed(&self) -> bool {
        forall|i: int, j: int|
            0 <= i < j < self.buckets@.len() ==> (#[trigger] self.buckets@[i]).name@
                != (#[trigger] self.buckets@[j]).name@
    }

    /// Where the bucket called `name` stands among the buckets, if it does.
    pub open spec fn position(&self, name: Seq<char>) -> Option<int> {
        if exists|i: int|
            0 <= i < self.buckets@.len() && (#[trigger] self.buckets@[i]).name@ == name {
            Some(
                choose|i: int|
                    0 <= i < self.buckets@.len() && (#[trigger] self.buckets@[i]).name@ == name,
            )
        } else {
            None
        }
    }

    /// The configuration as a map: each bucket's name with the expectations
    /// placed on it.
    pub open spec fn expectations(&self) -> Map<Seq<char>, Vec<Object>> {
        Map::new(
            |name: Seq<char>| self.position(name) is Some,
            |name: Seq<char>| self.buckets@[self.position(name).unwrap()].objects,
        )
    }

    /// Among buckets of distinct names, the bucket at `i` is the one that its
    /// name is found at.
    pub proof fn lemma_position_of(&self, i: int)
        requires
            self.well_formed(),
            0 <= i < self.buckets@.len(),
        ensures
            self.position(self.buckets@[i].name@) == Some(i),
    {
        let name = self.buckets@[i].name@;
        let found = self.position(name).unwrap();
        assert(self.buckets@[found].name@ == name);
    }

    /// A configuration without buckets.
    pub fn new(endpoint: String, region: String, access_key: String, secret_key: String) -> (data:
        Data)
        ensures
            data.endpoint == endpoint,
            data.region == region,
            data.access_key == access_key,
            data.secret_key == secret_key,
            data.buckets@.len() == 0,
            data.well_formed(),
            data.expectations() == Map::<Seq<char>, Vec<Object>>::empty(),
    {
        let data = Data { endpoint, region, access_key, secret_key, buckets: Vec::new() };
        proof {
            assert(data.expectations() =~= Map::<Seq<char>, Vec<Object>>::empty());
        }
        data
    }

    /// Where `after` has the buckets of `before` but for the one at `at`,
    /// which is called `name` and holds `objects`, and `before` had a bucket
    /// of that name only there, `after` is `before` with `name` set to
    /// `objects`.
    proof fn lemma_inserted(
        before: Data,
        after: Data,
        name: Seq<char>,
        objects: Vec<Object>,
        at: int,
    )
        requires
            before.well_formed(),
            0 <= at <= before.buckets@.len(),
            after.buckets@.len() == if at < before.buckets@.len() {
                before.buckets@.len()
            } else {
                before.buckets@.len() + 1
            },
            after.buckets@[at].name@ == name,
            after.buckets@[at].objects == objects,
            forall|i: int|
                0 <= i < before.buckets@.len() && i != at ==> after.buckets@[i]
                    == #[trigger] before.buckets@[i],
            forall|i: int|
                0 <= i < before.buckets@.len() && i != at ==> (#[trigger] before.buckets@[i]).name@
                    != name,
            at < before.buckets@.len() ==> before.buckets@[at].name@ == name,
        ensures
            after.well_formed(),
            after.expectations() == before.expectations().insert(name, objects),
    {
        assert(after.well_formed()) by {
            assert forall|i: int, j: int|
                0 <= i < j < after.buckets@.len() implies (#[trigger] after.buckets@[i]).name@
                != (#[trigger] after.buckets@[j]).name@ by {
                if i != at && j != at {
                    assert(after.buckets@[i] == before.buckets@[i]);
                    assert(after.buckets@[j] == before.buckets@[j]);
                } else if i == at {
                    assert(after.buckets@[j] == before.buckets@[j]);
                } else {
                    assert(after.buckets@[i] == before.buckets@[i]);
                }
            }
        }
        let expected = before.expectations().insert(name, objects);
        assert forall|key: Seq<char>|
            #[trigger] after.expectations().contains_key(key) == expected.contains_key(key)
                && (expected.contains_key(key) ==> after.expectations()[key] == expected[key]) by {
            if key == name {
                after.lemma_position_of(at);
            } else {
                if before.position(key) is Some {
                    let i = before.position(key).unwrap();
                    assert(before.buckets@[i].name@ == key);
                    assert(after.buckets@[i] == before.buckets@[i]);
                    after.lemma_position_of(i);
                }
                if after.position(key) is Some {
                    let i = after.position(key).unwrap();
                    assert(after.buckets@[i].name@ == key);
                    assert(after.buckets@[i] == before.buckets@[i]);
                    before.lemma_position_of(i);
                }
            }
        }
        assert(after.expectations() =~= expected);
    }

    /// Finds the bucket called `name`.
    pub fn find(&self, name: &str) -> (found: Option<usize>)
        ensures
            match found {
                Some(i) => i < self.buckets@.len() && self.buckets@[i as int].name@ == name@,
                None => forall|i: int|
                    0 <= i < self.buckets@.len() ==> (#[trigger] self.buckets@[i]).name@ != name@,
            },
            self.well_formed() ==> self.position(name@) == match found {
                Some(i) => Some(i as int),
                None => None,
            },
    {
        let wanted = name.to_owned();
        let mut i: usize = 0;
        while i < self.buckets.len()
            invariant
                wanted@ == name@,
                i <= self.buckets@.len(),
                forall|k: int| 0 <= k < i ==> (#[trigger] self.buckets@[k]).name@ != name@,
            decreases self.buckets.len() - i,
        {
            if self.buckets[i].name == wanted {
                return Some(i);
            }
            i += 1;
        }
        None
    }

    /// Sets the expectations on the bucket called `name`. A bucket of that
    /// name keeps its place and gives its former expectations back; a new
    /// bucket goes to the end.
    pub fn insert(&mut self, name: String, objects: Vec<Object>) -> (former: Option<Vec<Object>>)
        requires
            old(self).well_formed(),
        ensures
            final(self).well_formed(),
            final(self).endpoint == old(self).endpoint,
            final(self).region == old(self).region,
            final(self).access_key == old(self).access_key,
            final(self).secret_key == old(self).secret_key,
            final(self).expectations() == old(self).expectations().insert(name@, objects),
            former == old(self).expectations().get(name@),
            match old(self).position(name@) {
                Some(i) => final(self).buckets@ == old(self).buckets@.update(
                    i,
                    (Bucket { name, objects }),
                ),
                None => final(self).buckets@ == old(self).buckets@.push(
                    (Bucket { name, objects }),
                ),
            },
    {
        match self.find(name.as_str()) {
            Some(i) => {
                let replaced = self.buckets.remove(i);
                self.buckets.insert(i, Bucket { name, objects });
                proof {
                    assert(self.buckets@ =~= old(self).buckets@.update(
                        i as int,
                        Bucket { name, objects },
                    ));
                    old(self).lemma_position_of(i as int);
                    Self::lemma_inserted(*old(self), *self, name@, objects, i as int);
                }
                Some(replaced.objects)
            },
            None => {
                self.buckets.push(Bucket { name, objects });
                proof {
                    Self::lemma_inserted(
                        *old(self),
                        *self,
                        name@,
                        objects,
                        old(self).buckets@.len() as int,
                    );
                }
                None
            },
        }
    }
}

/// The whole configuration document.
#[derive(Debug, Clone, PartialEq, Eq)]
pub struct Config {
    pub s3mon: Data,
}

/// The freshness window, in seconds, of an expectation that names none: one
/// day.
pub fn default_age() -> (age: i64)
    ensures
        age == 86400,
{
    86400
}

} // verus!
