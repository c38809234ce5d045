//! The table of tags, and the tags of a product.

use vstd::prelude::*;

verus! {

/// A tag to be stored.
#[derive(Debug)]
pub struct NewTag {
    pub name: String,
    pub kind: String,
    pub uuid: u128,
}

/// One tag on one product, to be stored.
#[derive(Clone, Copy, Debug, PartialEq, Eq, Structural)]
pub struct NewProductTag {
    pub product_id: i32,
    pub tag_id: i32,
}

/// The kind of a language.
pub open spec fn lang_kind() -> Seq<char> {
    "lang"@
}

/// The kind of a framework.
pub open spec fn fw_kind() -> Seq<char> {
    "fw"@
}

/// The kind of a tool.
pub open spec fn tool_kind() -> Seq<char> {
    "tool"@
}

/// The names of the tags that the table is to hold: the languages, then the
/// frameworks, then the tools.
pub open spec fn planned_names(langs: Seq<Seq<char>>, fws: Seq<Seq<char>>, tools: Seq<Seq<char>>) -> Seq<
    Seq<char>,
> {
    langs + fws + tools
}

/// The kind of the tag at place `i` of the planned names.
pub open spec fn planned_kind(langs: Seq<Seq<char>>, fws: Seq<Seq<char>>, i: int) -> Seq<char> {
    if i < langs.len() {
        lang_kind()
    } else if i < langs.len() + fws.len() {
        fw_kind()
    } else {
        tool_kind()
    }
}

/// `uuid::Uuid::new_v4`, as `uuid::Uuid::as_u128` gives it: 128 bits that
/// are random but for the version and variant, so nothing is claimed of
/// them. The crate panics where the system has no randomness to give.
#[verifier::external_body]
fn fresh_uuid() -> u128 {
    uuid::Uuid::new_v4().as_u128()
}

/// Whether two lists of names are the same, name for name.
fn same_names(a: &Vec<String>, b: &Vec<String>) -> (same: bool)
    ensures
        same == (a.deep_view() == b.deep_view()),
{
    if a.len() != b.len() {
        assert(a.deep_view().len() != b.deep_view().len());
        return false;
    }
    let mut i: usize = 0;
    while i < a.len()
        invariant
            i <= a.len(),
            a.len() == b.len(),
            forall|j: int| 0 <= j < i ==> a[j]@ == b[j]@,
        decreases a.len() - i,
    {
        if a[i] != b[i] {
            assert(b.deep_view()[i as int] == b[i as int]@);
            return false;
        }
        i += 1;
    }
    assert(a.deep_view() =~= b.deep_view());
    true
}

/// Adds a tag of `kind` for each of `names` to `tags`.
fn plan(tags: &mut Vec<NewTag>, names: &Vec<String>, kind: &str)
    ensures
        final(tags).len() == old(tags).len() + names.len(),
        forall|i: int| 0 <= i < old(tags).len() ==> final(tags)[i] == old(tags)[i],
        forall|i: int|
            0 <= i < names.len() ==> (#[trigger] final(tags)[old(tags).len() + i]).name@ == names[i]@
                && final(tags)[old(tags).len() + i].kind@ == kind@,
{
    let mut i: usize = 0;
    while i < names.len()
        invariant
            i <= names.len(),
            tags.len() == old(tags).len() + i,
            forall|j: int| 0 <= j < old(tags).len() ==> tags[j] == old(tags)[j],
            forall|j: int|
                0 <= j < i ==> (#[trigger] tags[old(tags).len() + j]).name@ == names[j]@
                    && tags[old(tags).len() + j].kind@ == kind@,
        decreases names.len() - i,
    {
        tags.push(NewTag { name: names[i].clone(), kind: kind.to_owned(), uuid: fresh_uuid() });
        i += 1;
    }
}

/// Decides what is to be done with the table of tags when the service
/// starts. Where the names that the table holds are the planned ones, in
/// their order, nothing: `None`. Where not, the table is to be emptied and
/// filled with the tags given here, each under a fresh identifier.
pub fn init(langs: &Vec<String>, fws: &Vec<String>, tools: &Vec<String>, exist_names: &Vec<String>) -> (r:
    Option<Vec<NewTag>>)
    ensures
        r is None <==> planned_names(langs.deep_view(), fws.deep_view(), tools.deep_view())
            == exist_names.deep_view(),
        r matches Some(tags) ==> {
            &&& tags.len() == langs.len() + fws.len() + tools.len()
            &&& forall|i: int|
                0 <= i < tags.len() ==> (#[trigger] tags[i]).name@ == planned_names(
                    langs.deep_view(),
                    fws.deep_view(),
                    tools.deep_view(),
                )[i] && tags[i].kind@ == planned_kind(langs.deep_view(), fws.deep_view(), i)
        },
{
    let mut new_tags: Vec<NewTag> = Vec::new();
    plan(&mut new_tags, langs, "lang");
    let ghost first = new_tags@;
    plan(&mut new_tags, fws, "fw");
    let ghost second = new_tags@;
    plan(&mut new_tags, tools, "tool");
    let ghost names = planned_names(langs.deep_view(), fws.deep_view(), tools.deep_view());
    assert forall|i: int| 0 <= i < new_tags.len() implies (#[trigger] new_tags[i]).name@ == names[i]
        && new_tags[i].kind@ == planned_kind(langs.deep_view(), fws.deep_view(), i) by {
        if i < langs.len() {
            assert(first[0 + i].name@ == langs[i]@);
        } else if i < langs.len() + fws.len() {
            let j = i - langs.len();
            assert(second[first.len() + j].name@ == fws[j]@);
        } else {
            let j = i - langs.len() - fws.len();
            assert(new_tags[second.len() + j].name@ == tools[j]@);
        }
    }
    let mut new_names: Vec<String> = Vec::new();
    let mut i: usize = 0;
    while i < new_tags.len()
        invariant
            i <= new_tags.len(),
            new_names.len() == i,
            forall|j: int| 0 <= j < i ==> new_names[j]@ == new_tags[j].name@,
        decreases new_tags.len() - i,
    {
        new_names.push(new_tags[i].name.clone());
        i += 1;
    }
    assert(new_names.deep_view() =~= names);
    if same_names(&new_names, exist_names) {
        None
    } else {
        Some(new_tags)
    }
}

/// The entries that put the tags `tags` on the product `product_id`, one for
/// each tag, in their order.
pub fn entry_to_product(product_id: i32, tags: Vec<i32>) -> (entries: Vec<NewProductTag>)
    ensures
        entries.len() == tags.len(),
        forall|i: int|
            0 <= i < tags.len() ==> #[trigger] entries[i] == (NewProductTag {
                product_id,
                tag_id: tags[i],
            }),
{
    let mut entries: Vec<NewProductTag> = Vec::new();
    let mut i: usize = 0;
    while i < tags.len()
        invariant
            i <= tags.len(),
            entries.len() == i,
            forall|j: int|
                0 <= j < i ==> #[trigger] entries[j] == (NewProductTag {
                    product_id,
                    tag_id: tags[j],
                }),
        decreases tags.len() - i,
    {
        entries.push(NewProductTag { product_id, tag_id: tags[i] });
        i += 1;
    }
    entries
}

} // verus!
