//! The campus domain: identities, provider references, candidates, the reality
//! model and the object collection of a campus project.
//!
//! Geographic coordinates are floating-point values, which this library does not
//! hold; the types that carry a coordinate are generic over it (`A`), and every
//! contract holds for whatever coordinate value is carried.
use crate::text::{chars_equal, chars_of, concat_chars, string_of};
use vstd::prelude::*;

verus! {

pub const PROJECT_SCHEMA_VERSION: u32 = 3;

pub const REALITY_SCHEMA_VERSION: u32 = 3;

pub const OBJECTS_SCHEMA_VERSION: u32 = 1;

#[verifier::external_type_specification]
#[verifier::external_body]
pub struct ExUuid(uuid::Uuid);

/// The version number of a UUID, as `Uuid::get_version_num` reads it: the high
/// four bits of its seventh byte.
pub uninterp spec fn uuid_version(u: uuid::Uuid) -> nat;

/// Draws a fresh random identifier with `uuid::Uuid::new_v4`.
///
/// The bits come from a random source; the function always sets the version
/// bits to 4 (and the variant bits to RFC 4122), and only the version is claimed.
#[verifier::external_body]
fn random_uuid() -> (r: uuid::Uuid)
    ensures
        uuid_version(r) == 4,
{
    uuid::Uuid::new_v4()
}

/// Identifier of a campus project.
#[derive(Debug, Clone, Copy, PartialEq, Eq, Hash)]
pub struct ProjectId(pub uuid::Uuid);

impl ProjectId {
    /// A new random project identifier: a version-4 UUID.
    pub fn new() -> (r: Self)
        ensures
            uuid_version(r.0) == 4,
    {
        ProjectId(random_uuid())
    }
}

/// The display name of a manually named campus: the school name alone when the
/// campus carries the same name, otherwise `school · campus`.
pub open spec fn manual_display_name(school: Seq<char>, campus: Seq<char>) -> Seq<char> {
    if campus == school {
        school
    } else {
        school + seq![' ', '\u{b7}', ' '] + campus
    }
}

#[derive(Debug, Clone, PartialEq, Eq)]
pub struct CampusIdentity {
    pub school_name: String,
    pub campus_name: Option<String>,
    pub display_name: String,
}

impl CampusIdentity {
    /// The identity of a campus named by hand.
    pub fn manual(school_name: &str, campus_name: &str) -> (r: Self)
        ensures
            r.school_name@ == school_name@,
            r.campus_name matches Some(c) && c@ == campus_name@,
            r.display_name@ == manual_display_name(school_name@, campus_name@),
    {
        let school = chars_of(school_name);
        let campus = chars_of(campus_name);
        let display = if chars_equal(&campus, &school) {
            string_of(&school)
        } else {
            let sep = vec![' ', '\u{b7}', ' '];
            let head = concat_chars(&school, &sep);
            let whole = concat_chars(&head, &campus);
            string_of(&whole)
        };
        CampusIdentity {
            school_name: string_of(&school),
            campus_name: Some(string_of(&campus)),
            display_name: display,
        }
    }
}

#[derive(Debug, Clone, PartialEq, Eq)]
pub struct CampusSourceReference {
    pub provider: String,
    pub external_id: String,
}

/// A campus found at a map provider; `A` is the type of its WGS-84 anchor.
#[derive(Debug, Clone, PartialEq)]
pub struct CampusCandidate<A> {
    pub source: CampusSourceReference,
    pub identity: CampusIdentity,
    pub address: String,
    pub anchor: A,
}

/// The position of the first candidate whose provider identifier is
/// `external_id`, if any candidate has it.
pub fn find_candidate<A>(candidates: &Vec<CampusCandidate<A>>, external_id: &str) -> (r: Option<
    usize,
>)
    ensures
        match r {
            Some(i) => {
                &&& i < candidates.len()
                &&& candidates@[i as int].source.external_id@ == external_id@
                &&& forall|j: int|
                    0 <= j < i ==> #[trigger] candidates@[j].source.external_id@ != external_id@
            },
            None => forall|j: int|
                0 <= j < candidates.len() ==> #[trigger] candidates@[j].source.external_id@
                    != external_id@,
        },
{
    let wanted = chars_of(external_id);
    let mut i: usize = 0;
    while i < candidates.len()
        invariant
            0 <= i <= candidates.len(),
            wanted@ == external_id@,
            forall|j: int|
                0 <= j < i ==> #[trigger] candidates@[j].source.external_id@ != external_id@,
        decreases candidates.len() - i,
    {
        let id = chars_of(candidates[i].source.external_id.as_str());
        if chars_equal(&id, &wanted) {
            return Some(i);
        }
        i = i + 1;
    }
    None
}

#[derive(Debug, Clone, PartialEq)]
pub struct RealitySource<A> {
    pub kind: String,
    pub reference: String,
    pub display_name: Option<String>,
    pub address: Option<String>,
    pub anchor: Option<A>,
}

#[derive(Debug, Clone, PartialEq)]
pub struct RealityModel<A> {
    pub schema_version: u32,
    pub sources: Vec<RealitySource<A>>,
}

/// The anchor of the first source, from position `i` on, that carries one.
pub open spec fn first_anchor_from<A>(sources: Seq<RealitySource<A>>, i: int) -> Option<A>
    decreases sources.len() - i,
{
    if i < 0 || i >= sources.len() {
        None
    } else if sources[i].anchor is Some {
        sources[i].anchor
    } else {
        first_anchor_from(sources, i + 1)
    }
}

impl<A: Copy> RealityModel<A> {
    /// A reality model with no sources.
    pub fn empty() -> (r: Self)
        ensures
            r.schema_version == REALITY_SCHEMA_VERSION,
            r.sources@.len() == 0,
    {
        RealityModel { schema_version: REALITY_SCHEMA_VERSION, sources: Vec::new() }
    }

    /// The reality model of a project created from a provider candidate: one
    /// source that records the provider, its identifier, the name, the address
    /// and the anchor of the candidate.
    pub fn from_candidate(candidate: &CampusCandidate<A>) -> (r: Self)
        ensures
            r.schema_version == REALITY_SCHEMA_VERSION,
            r.sources@.len() == 1,
            r.sources@[0].kind@ == candidate.source.provider@,
            r.sources@[0].reference@ == candidate.source.external_id@,
            r.sources@[0].display_name matches Some(n) && n@ == candidate.identity.display_name@,
            r.sources@[0].address matches Some(a) && a@ == candidate.address@,
            r.sources@[0].anchor == Some(candidate.anchor),
    {
        let source = RealitySource {
            kind: candidate.source.provider.clone(),
            reference: candidate.source.external_id.clone(),
            display_name: Some(candidate.identity.display_name.clone()),
            address: Some(candidate.address.clone()),
            anchor: Some(candidate.anchor),
        };
        let mut sources = Vec::new();
        sources.push(source);
        RealityModel { schema_version: REALITY_SCHEMA_VERSION, sources }
    }

    /// The geographic anchor of the campus: that of the first source that has one.
    pub fn campus_anchor(&self) -> (r: Option<A>)
        ensures
            r == first_anchor_from(self.sources@, 0),
    {
        let mut i: usize = 0;
        while i < self.sources.len()
            invariant
                i <= self.sources@.len(),
                first_anchor_from(self.sources@, 0) == first_anchor_from(self.sources@, i as int),
            decreases self.sources.len() - i,
        {
            if let Some(anchor) = self.sources[i].anchor {
                return Some(anchor);
            }
            i = i + 1;
        }
        None
    }
}

/// A reality model without sources has no anchor, and one with a single source
/// (as a project created from a candidate has) is anchored where that source is.
pub proof fn anchor_of_fresh_reality_models<A>(sources: Seq<RealitySource<A>>)
    ensures
        sources.len() == 0 ==> first_anchor_from(sources, 0) is None,
        sources.len() == 1 ==> first_anchor_from(sources, 0) == sources[0].anchor,
{
    if sources.len() == 1 && sources[0].anchor is None {
        assert(first_anchor_from(sources, 1) is None);
    }
}

#[derive(Debug, Clone, Copy, PartialEq, Eq)]
pub enum CampusObjectType {
    Building,
    Road,
    Water,
    Vegetation,
    SportsFacility,
    Plaza,
    Landmark,
    Other,
}

#[derive(Debug, PartialEq, Eq)]
pub struct CampusObject {
    pub id: uuid::Uuid,
    pub object_type: CampusObjectType,
    pub name: Option<String>,
    pub source_reference: Option<String>,
    pub style_reference: Option<String>,
}

#[derive(Debug, PartialEq, Eq)]
pub struct CampusObjectCollection {
    pub schema_version: u32,
    pub objects: Vec<CampusObject>,
}

impl CampusObjectCollection {
    /// A collection with no objects.
    pub fn empty() -> (r: Self)
        ensures
            r.schema_version == OBJECTS_SCHEMA_VERSION,
            r.objects@.len() == 0,
    {
        CampusObjectCollection { schema_version: OBJECTS_SCHEMA_VERSION, objects: Vec::new() }
    }
}

/// The world format a project is generated for.
#[derive(Debug, Clone, Copy, PartialEq, Eq)]
pub enum GenerationTarget {
    MinecraftJava,
}

/// Every generation target of a project is supported by the generator.
pub fn ensure_supported_generation_target(target: GenerationTarget) -> (r: Result<(), GenerationTarget>)
    ensures
        r is Ok,
{
    match target {
        GenerationTarget::MinecraftJava => Ok(()),
    }
}

} // verus!
