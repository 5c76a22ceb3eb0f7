//! What the operations on compounds do, told by the tags that they hold.
use vstd::prelude::*;

use crate::nbt::{
    law_put_is_read, lemma_absent, lemma_first, lemma_present, value_of, with_tag, NbtCompound,
    NbtTag, NbtValue, Tags,
};

verus! {

/// Under a name the first tag of that name is read, and nothing only if there is none.
pub proof fn law_first_tag_counts(tags: Tags, name: Seq<char>)
    ensures
        match value_of(tags, name) {
            Some(value) => exists|i: int|
                0 <= i < tags.len() && #[trigger] tags[i] == (name, value) && forall|j: int|
                    0 <= j < i ==> (#[trigger] tags[j]).0 != name,
            None => forall|i: int| 0 <= i < tags.len() ==> (#[trigger] tags[i]).0 != name,
        },
{
    if exists|i: int| 0 <= i < tags.len() && (#[trigger] tags[i]).0 == name {
        let i = lemma_first(tags, name);
        lemma_present(tags, name, i, tags[i].1);
        assert(tags[i] == (name, tags[i].1));
    } else {
        lemma_absent(tags, name, NbtValue::Int(0));
    }
}

/// Putting a tag replaces the first tag of its name where that stands, or adds the tag at the end
/// if there is none; all other tags stay.
pub proof fn law_put_replaces_or_appends(tags: Tags, name: Seq<char>, value: NbtValue)
    ensures
        ({
            let after = with_tag(tags, name, value);
            if exists|i: int| 0 <= i < tags.len() && (#[trigger] tags[i]).0 == name {
                &&& after.len() == tags.len()
                &&& exists|i: int|
                    {
                        &&& 0 <= i < tags.len() && (#[trigger] tags[i]).0 == name
                        &&& after[i] == (name, value)
                        &&& forall|j: int| 0 <= j < i ==> (#[trigger] tags[j]).0 != name
                        &&& forall|j: int|
                            0 <= j < tags.len() && j != i ==> after[j] == #[trigger] tags[j]
                    }
            } else {
                &&& after.len() == tags.len() + 1
                &&& after[tags.len() as int] == (name, value)
                &&& forall|j: int| 0 <= j < tags.len() ==> after[j] == #[trigger] tags[j]
            }
        }),
{
    if exists|i: int| 0 <= i < tags.len() && (#[trigger] tags[i]).0 == name {
        let i = lemma_first(tags, name);
        lemma_present(tags, name, i, value);
        assert(tags[i].0 == name);
    } else {
        lemma_absent(tags, name, value);
    }
}

/// A fresh compound holds no tag.
pub proof fn law_new_compound_is_empty(compound: NbtCompound)
    requires
        call_ensures(NbtCompound::new, (), compound),
    ensures
        compound.child_tags@.len() == 0,
{
    assert(compound@.len() == compound.child_tags@.len());
}

/// Reading gives the first tag of a name, its integer if it is an integer and its string if it is a
/// string, and nothing else.
pub proof fn law_reading_gives_the_first_tag(
    compound: &NbtCompound,
    name: &str,
    tag: Option<&NbtTag>,
    int_value: Option<i32>,
    string_value: Option<&String>,
)
    requires
        call_ensures(NbtCompound::get, (compound, name), tag),
        call_ensures(NbtCompound::get_int, (compound, name), int_value),
        call_ensures(NbtCompound::get_string, (compound, name), string_value),
    ensures
        forall|i: int|
            0 <= i < compound.child_tags@.len() && (#[trigger] compound.child_tags@[i]).0@ == name@
                && (forall|j: int|
                0 <= j < i ==> (#[trigger] compound.child_tags@[j]).0@ != name@) ==> {
                &&& tag matches Some(t) && t@ == compound.child_tags@[i].1@
                &&& match compound.child_tags@[i].1 {
                    NbtTag::Int(value) => int_value == Some(value),
                    _ => int_value is None,
                }
                &&& match compound.child_tags@[i].1 {
                    NbtTag::String(value) => string_value matches Some(s) && s@ == value@,
                    _ => string_value is None,
                }
            },
        (forall|i: int|
            0 <= i < compound.child_tags@.len() ==> (#[trigger] compound.child_tags@[i]).0@
                != name@) ==> tag is None && int_value is None && string_value is None,
{
    assert forall|i: int|
        0 <= i < compound.child_tags@.len() && (#[trigger] compound.child_tags@[i]).0@ == name@ && (
        forall|j: int| 0 <= j < i ==> (#[trigger] compound.child_tags@[j]).0@ != name@) implies {
        &&& tag matches Some(t) && t@ == compound.child_tags@[i].1@
        &&& match compound.child_tags@[i].1 {
            NbtTag::Int(value) => int_value == Some(value),
            _ => int_value is None,
        }
        &&& match compound.child_tags@[i].1 {
            NbtTag::String(value) => string_value matches Some(s) && s@ == value@,
            _ => string_value is None,
        }
    } by {
        assert forall|j: int| 0 <= j < i implies (#[trigger] compound@[j]).0 != name@ by {
            assert(compound.child_tags@[j].0@ != name@);
        }
        assert(compound@[i].0 == name@);
        lemma_present(compound@, name@, i, compound@[i].1);
    }
    if forall|i: int|
        0 <= i < compound.child_tags@.len() ==> (#[trigger] compound.child_tags@[i]).0@ != name@ {
        assert forall|j: int| 0 <= j < compound@.len() implies (#[trigger] compound@[j]).0
            != name@ by {
            assert(compound.child_tags@[j].0@ != name@);
        }
        lemma_absent(compound@, name@, NbtValue::Int(0));
    }
}

/// What is put can be read again, under its name and as what it is; under any other name the same
/// is read as before.
pub proof fn law_put_then_read(
    compound: &mut NbtCompound,
    name: &str,
    tag: NbtTag,
    other: &str,
    before: Option<&NbtTag>,
    after: Option<&NbtTag>,
)
    requires
        call_ensures(NbtCompound::put, (compound, name, tag), ()),
        call_ensures(NbtCompound::get, (&*old(compound), other), before),
        call_ensures(NbtCompound::get, (&*final(compound), other), after),
    ensures
        other@ == name@ ==> (after matches Some(t) && t@ == tag@),
        other@ != name@ ==> match (before, after) {
            (Some(b), Some(a)) => a@ == b@,
            (None, None) => true,
            _ => false,
        },
{
    law_put_is_read(old(compound)@, name@, tag@, other@);
}

/// Putting a tag into a compound that has one tag of each name leaves it so.
pub proof fn law_put_adds_no_second_tag(compound: &mut NbtCompound, name: &str, tag: NbtTag)
    requires
        call_ensures(NbtCompound::put, (compound, name, tag), ()),
        forall|i: int, j: int|
            0 <= i < j < old(compound)@.len() ==> (#[trigger] old(compound)@[i]).0 != (
            #[trigger] old(compound)@[j]).0,
    ensures
        forall|i: int, j: int|
            0 <= i < j < final(compound)@.len() ==> (#[trigger] final(compound)@[i]).0 != (
            #[trigger] final(compound)@[j]).0,
{
}

/// A string, an integer or a long integer is put as such; no other tag changes, and a tag is added
/// only where there was none of the name.
pub proof fn law_put_by_kind(
    strings: &mut NbtCompound,
    integers: &mut NbtCompound,
    longs: &mut NbtCompound,
    name: &str,
    string: String,
    integer: i32,
    long: i64,
    i: int,
)
    requires
        call_ensures(NbtCompound::put_string, (strings, name, string), ()),
        call_ensures(NbtCompound::put_int, (integers, name, integer), ()),
        call_ensures(NbtCompound::put_long, (longs, name, long), ()),
        old(strings)@ == old(integers)@ && old(integers)@ == old(longs)@,
    ensures
        value_of(final(strings)@, name@) == Some(NbtValue::String(string@)),
        value_of(final(integers)@, name@) == Some(NbtValue::Int(integer)),
        value_of(final(longs)@, name@) == Some(NbtValue::Long(long)),
        final(strings)@.len() == final(integers)@.len() == final(longs)@.len(),
        final(integers)@.len() == old(integers)@.len() + if exists|k: int|
            0 <= k < old(integers)@.len() && (#[trigger] old(integers)@[k]).0 == name@ {
            0int
        } else {
            1
        },
        0 <= i < old(integers)@.len() && old(integers)@[i].0 != name@ ==> final(strings)@[i] == old(
            integers,
        )@[i] && final(integers)@[i] == old(integers)@[i] && final(longs)@[i] == old(integers)@[i],
{
    let tags = old(integers)@;
    law_put_is_read(tags, name@, NbtValue::String(string@), name@);
    law_put_is_read(tags, name@, NbtValue::Int(integer), name@);
    law_put_is_read(tags, name@, NbtValue::Long(long), name@);
    law_put_replaces_or_appends(tags, name@, NbtValue::String(string@));
    law_put_replaces_or_appends(tags, name@, NbtValue::Int(integer));
    law_put_replaces_or_appends(tags, name@, NbtValue::Long(long));
}

} // verus!
