//! Compounds of named tags, the form in which block entities are saved and metadata is sent.
use vstd::prelude::*;

verus! {

/// The payload of a tag. Beacons and the metadata channel read and write integers, longs and
/// strings; every other kind of tag is `Other`, with a number by which the server knows its payload.
#[derive(Debug)]
pub enum NbtTag {
    Int(i32),
    Long(i64),
    String(String),
    Other(u64),
}

/// What a tag says.
pub ghost enum NbtValue {
    Int(i32),
    Long(i64),
    String(Seq<char>),
    Other(u64),
}

impl View for NbtTag {
    type V = NbtValue;

    open spec fn view(&self) -> NbtValue {
        match self {
            NbtTag::Int(value) => NbtValue::Int(*value),
            NbtTag::Long(value) => NbtValue::Long(*value),
            NbtTag::String(value) => NbtValue::String(value@),
            NbtTag::Other(handle) => NbtValue::Other(*handle),
        }
    }
}

/// The tags of a compound with their names, in order.
pub type Tags = Seq<(Seq<char>, NbtValue)>;

/// A compound tag. Where a name occurs more than once, its first tag counts.
#[derive(Debug)]
pub struct NbtCompound {
    pub child_tags: Vec<(String, NbtTag)>,
}

impl View for NbtCompound {
    type V = Tags;

    open spec fn view(&self) -> Tags {
        Seq::new(
            self.child_tags@.len(),
            |i: int| (self.child_tags@[i].0@, self.child_tags@[i].1@),
        )
    }
}

/// What the tag called `name` says.
pub open spec fn value_of(tags: Tags, name: Seq<char>) -> Option<NbtValue>
    decreases tags.len(),
{
    if tags.len() == 0 {
        None
    } else if tags[0].0 == name {
        Some(tags[0].1)
    } else {
        value_of(tags.drop_first(), name)
    }
}

/// The tags after `name` was let be `value`: its tag is replaced or, if there is none, a new one
/// stands last.
pub open spec fn with_tag(tags: Tags, name: Seq<char>, value: NbtValue) -> Tags
    decreases tags.len(),
{
    if tags.len() == 0 {
        seq![(name, value)]
    } else if tags[0].0 == name {
        tags.update(0, (name, value))
    } else {
        seq![tags[0]] + with_tag(tags.drop_first(), name, value)
    }
}

/// The integer called `name` in a compound.
pub open spec fn int_in(tags: Tags, name: Seq<char>) -> Option<i32> {
    match value_of(tags, name) {
        Some(NbtValue::Int(value)) => Some(value),
        _ => None,
    }
}

/// The string called `name` in a compound.
pub open spec fn string_in(tags: Tags, name: Seq<char>) -> Option<Seq<char>> {
    match value_of(tags, name) {
        Some(NbtValue::String(value)) => Some(value),
        _ => None,
    }
}

/// No two tags share a name.
pub open spec fn unique(tags: Tags) -> bool {
    forall|i: int, j: int|
        0 <= i < j < tags.len() ==> (#[trigger] tags[i]).0 != (#[trigger] tags[j]).0
}

impl NbtCompound {
    /// An empty compound.
    pub fn new() -> (compound: Self)
        ensures
            compound@ == Tags::empty(),
            unique(compound@),
    {
        let compound = NbtCompound { child_tags: Vec::new() };
        assert(compound@ =~= Tags::empty());
        compound
    }

    /// Index `i` holds the first tag of that name.
    spec fn names_first(&self, name: Seq<char>, i: int) -> bool {
        &&& 0 <= i < self@.len()
        &&& self@[i].0 == name
        &&& forall|j: int| 0 <= j < i ==> (#[trigger] self@[j]).0 != name
    }

    fn position(&self, name: &String) -> (found: Option<usize>)
        ensures
            match found {
                Some(i) => self.names_first(name@, i as int),
                None => forall|j: int| 0 <= j < self@.len() ==> (#[trigger] self@[j]).0 != name@,
            },
    {
        let mut i: usize = 0;
        while i < self.child_tags.len()
            invariant
                i <= self.child_tags@.len(),
                forall|j: int| 0 <= j < i ==> (#[trigger] self@[j]).0 != name@,
            decreases self.child_tags@.len() - i,
        {
            if self.child_tags[i].0 == *name {
                return Some(i);
            }
            i += 1;
        }
        None
    }

    /// The tag called `name`.
    pub fn get(&self, name: &str) -> (tag: Option<&NbtTag>)
        ensures
            match tag {
                Some(t) => value_of(self@, name@) == Some(t@),
                None => value_of(self@, name@) is None,
            },
    {
        let name = name.to_owned();
        match self.position(&name) {
            Some(i) => {
                proof {
                    lemma_present(self@, name@, i as int, self@[i as int].1);
                }
                Some(&self.child_tags[i].1)
            },
            None => {
                proof {
                    lemma_absent(self@, name@, NbtValue::Int(0));
                }
                None
            },
        }
    }

    /// The string called `name`, if there is a tag of that name and it is a string.
    pub fn get_string(&self, name: &str) -> (value: Option<&String>)
        ensures
            match value {
                Some(s) => string_in(self@, name@) == Some(s@),
                None => string_in(self@, name@) is None,
            },
    {
        match self.get(name) {
            Some(NbtTag::String(value)) => Some(value),
            _ => None,
        }
    }

    /// The integer called `name`, if there is a tag of that name and it is an integer.
    pub fn get_int(&self, name: &str) -> (value: Option<i32>)
        ensures
            value == int_in(self@, name@),
    {
        match self.get(name) {
            Some(NbtTag::Int(value)) => Some(*value),
            _ => None,
        }
    }

    /// Lets `name` be `tag`.
    pub fn put(&mut self, name: &str, tag: NbtTag)
        ensures
            final(self)@ == with_tag(old(self)@, name@, tag@),
            unique(old(self)@) ==> unique(final(self)@),
    {
        let name = name.to_owned();
        let ghost before = self@;
        let ghost value = tag@;
        let ghost key = name@;
        proof {
            law_put_keeps_names_apart(before, key, value);
        }
        match self.position(&name) {
            Some(i) => {
                proof {
                    lemma_present(before, key, i as int, value);
                }
                self.child_tags.set(i, (name, tag));
                assert(self@ =~= before.update(i as int, (key, value)));
            },
            None => {
                proof {
                    lemma_absent(before, key, value);
                }
                self.child_tags.push((name, tag));
                assert(self@ =~= before.push((key, value)));
            },
        }
    }

    /// Lets `name` be the string `value`.
    pub fn put_string(&mut self, name: &str, value: String)
        ensures
            final(self)@ == with_tag(old(self)@, name@, NbtValue::String(value@)),
            unique(old(self)@) ==> unique(final(self)@),
    {
        self.put(name, NbtTag::String(value));
    }

    /// Lets `name` be the integer `value`.
    pub fn put_int(&mut self, name: &str, value: i32)
        ensures
            final(self)@ == with_tag(old(self)@, name@, NbtValue::Int(value)),
            unique(old(self)@) ==> unique(final(self)@),
    {
        self.put(name, NbtTag::Int(value));
    }

    /// Lets `name` be the long integer `value`.
    pub fn put_long(&mut self, name: &str, value: i64)
        ensures
            final(self)@ == with_tag(old(self)@, name@, NbtValue::Long(value)),
            unique(old(self)@) ==> unique(final(self)@),
    {
        self.put(name, NbtTag::Long(value));
    }
}

/// The first tag of a name counts, and is the one that is replaced.
pub(crate) proof fn lemma_present(tags: Tags, name: Seq<char>, i: int, value: NbtValue)
    requires
        0 <= i < tags.len(),
        tags[i].0 == name,
        forall|j: int| 0 <= j < i ==> (#[trigger] tags[j]).0 != name,
    ensures
        value_of(tags, name) == Some(tags[i].1),
        with_tag(tags, name, value) == tags.update(i, (name, value)),
    decreases tags.len(),
{
    if i > 0 {
        let rest = tags.drop_first();
        assert(tags[0].0 != name);
        assert forall|j: int| 0 <= j < i - 1 implies (#[trigger] rest[j]).0 != name by {
            assert(rest[j] == tags[j + 1]);
        }
        lemma_present(rest, name, i - 1, value);
        assert(with_tag(tags, name, value) =~= tags.update(i, (name, value)));
    }
}

/// A name that does not occur has no value, and its tag comes last.
pub(crate) proof fn lemma_absent(tags: Tags, name: Seq<char>, value: NbtValue)
    requires
        forall|j: int| 0 <= j < tags.len() ==> (#[trigger] tags[j]).0 != name,
    ensures
        value_of(tags, name) is None,
        with_tag(tags, name, value) == tags.push((name, value)),
    decreases tags.len(),
{
    if tags.len() > 0 {
        let rest = tags.drop_first();
        assert(tags[0].0 != name);
        assert forall|j: int| 0 <= j < rest.len() implies (#[trigger] rest[j]).0 != name by {
            assert(rest[j] == tags[j + 1]);
        }
        lemma_absent(rest, name, value);
    }
    assert(with_tag(tags, name, value) =~= tags.push((name, value)));
}

/// What is put under a name is read under that name; under any other name the same is read as
/// before.
pub broadcast proof fn law_put_is_read(
    tags: Tags,
    name: Seq<char>,
    value: NbtValue,
    other: Seq<char>,
)
    ensures
        #[trigger] value_of(with_tag(tags, name, value), other) == (if other == name {
            Some(value)
        } else {
            value_of(tags, other)
        }),
    decreases tags.len(),
{
    let after = with_tag(tags, name, value);
    if tags.len() == 0 {
        assert(after.drop_first() =~= Tags::empty());
        reveal_with_fuel(value_of, 2);
    } else if tags[0].0 == name {
        assert(after.drop_first() =~= tags.drop_first());
    } else {
        assert(after.drop_first() =~= with_tag(tags.drop_first(), name, value));
        assert(after[0] == tags[0]);
        law_put_is_read(tags.drop_first(), name, value, other);
    }
}

/// Putting a tag into a compound in which no two tags share a name leaves it so.
pub proof fn law_put_keeps_names_apart(tags: Tags, name: Seq<char>, value: NbtValue)
    ensures
        unique(tags) ==> unique(with_tag(tags, name, value)),
{
    if exists|i: int| 0 <= i < tags.len() && (#[trigger] tags[i]).0 == name {
        let i = lemma_first(tags, name);
        lemma_present(tags, name, i, value);
    } else {
        lemma_absent(tags, name, value);
    }
}

/// The index of the first tag of a name that occurs.
pub(crate) proof fn lemma_first(tags: Tags, name: Seq<char>) -> (first: int)
    requires
        exists|i: int| 0 <= i < tags.len() && (#[trigger] tags[i]).0 == name,
    ensures
        0 <= first < tags.len(),
        tags[first].0 == name,
        forall|j: int| 0 <= j < first ==> (#[trigger] tags[j]).0 != name,
    decreases tags.len(),
{
    if tags[0].0 == name {
        0
    } else {
        let rest = tags.drop_first();
        let i = choose|i: int| 0 <= i < tags.len() && (#[trigger] tags[i]).0 == name;
        assert(rest[i - 1].0 == name);
        let first = lemma_first(rest, name);
        assert forall|j: int| 0 <= j < first + 1 implies (#[trigger] tags[j]).0 != name by {
            if j > 0 {
                assert(rest[j - 1] == tags[j]);
            }
        }
        first + 1
    }
}

} // verus!
