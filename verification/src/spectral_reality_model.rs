//! Spectral objects and the catalog that holds them.

use crate::score::{Reading, SCALE};
use std::collections::HashMap;
use vstd::prelude::*;

verus! {

/// `serde_json::Value`, any JSON value: carried through unread.
#[verifier::external_type_specification]
#[verifier::external_body]
pub struct ExJsonValue(serde_json::Value);

/// A moment in UTC: whole seconds since the Unix epoch and the nanoseconds
/// into that second.
#[derive(Clone, Copy, Debug, PartialEq, Eq, Structural)]
pub struct Timestamp {
    pub secs: i64,
    pub nanos: u32,
}

/// `chrono::Utc::now` reads the system clock; `DateTime::timestamp` and
/// `DateTime::timestamp_subsec_nanos` give the two parts of the moment.
/// Nothing is claimed of the moment returned. The call panics where the
/// system clock stands before the Unix epoch.
#[verifier::external_body]
fn current_time() -> (now: Timestamp) {
    let now = chrono::Utc::now();
    Timestamp { secs: now.timestamp(), nanos: now.timestamp_subsec_nanos() }
}

/// `HashMap::extend` of std inserts every pair of `more` into `map`; where a
/// key is already present, its value is replaced by the new one.
#[verifier::external_body]
fn extend_map(
    map: &mut HashMap<String, serde_json::Value>,
    more: HashMap<String, serde_json::Value>,
)
    ensures
        final(map)@ == old(map)@.union_prefer_right(more@),
{
    map.extend(more)
}

/// `uuid::Uuid::new_v4` draws a random identifier, and its `to_string`
/// writes it in the hyphenated form, which is 36 characters long.
#[verifier::external_body]
fn fresh_object_id() -> (id: String)
    ensures
        id@.len() == 36,
{
    uuid::Uuid::new_v4().to_string()
}

/// Kinds of spectral objects that can be excavated.
#[derive(Clone, Debug, PartialEq, Eq)]
pub enum SpectralKind {
    DomSheet,
    JsonSchema,
    StateMachine,
    ApiShape,
    TracePattern,
    VmRegion,
    Other(String),
}

/// Where a spectral object comes from.
#[derive(Clone, Debug, PartialEq, Eq)]
pub struct Origin {
    pub domain: String,
    pub system: String,
    pub run_id: String,
    pub modality: String,
}

/// One spectral object. Stability, drift and confidence are scores in
/// millionths.
#[derive(Debug)]
pub struct SpectralObject {
    pub id: String,
    pub kind: SpectralKind,
    pub origin: Origin,
    pub signature: HashMap<String, serde_json::Value>,
    pub stability: i64,
    pub drift: i64,
    pub confidence: i64,
    pub relationships: Vec<String>,
    pub metadata: HashMap<String, serde_json::Value>,
    pub created_at: Timestamp,
    pub updated_at: Timestamp,
}

impl SpectralKind {
    /// Position of the variant in the declaration.
    pub open spec fn tag(&self) -> int {
        match self {
            SpectralKind::DomSheet => 0,
            SpectralKind::JsonSchema => 1,
            SpectralKind::StateMachine => 2,
            SpectralKind::ApiShape => 3,
            SpectralKind::TracePattern => 4,
            SpectralKind::VmRegion => 5,
            SpectralKind::Other(_) => 6,
        }
    }

    /// Name of a kind outside the known ones; empty for a known kind.
    pub open spec fn label(&self) -> Seq<char> {
        match self {
            SpectralKind::Other(name) => name@,
            _ => Seq::empty(),
        }
    }

    /// Two kinds are the same when they are the same variant and, outside
    /// the known kinds, carry the same name.
    pub open spec fn same_as(&self, other: &SpectralKind) -> bool {
        self.tag() == other.tag() && self.label() == other.label()
    }

    /// Tells whether two kinds are the same.
    pub fn matches(&self, other: &SpectralKind) -> (r: bool)
        ensures
            r == self.same_as(other),
    {
        match (self, other) {
            (SpectralKind::DomSheet, SpectralKind::DomSheet) => true,
            (SpectralKind::JsonSchema, SpectralKind::JsonSchema) => true,
            (SpectralKind::StateMachine, SpectralKind::StateMachine) => true,
            (SpectralKind::ApiShape, SpectralKind::ApiShape) => true,
            (SpectralKind::TracePattern, SpectralKind::TracePattern) => true,
            (SpectralKind::VmRegion, SpectralKind::VmRegion) => true,
            (SpectralKind::Other(a), SpectralKind::Other(b)) => *a == *b,
            _ => false,
        }
    }
}

/// The score that an update leaves: the coerced new reading, or the old
/// score where none is given.
pub open spec fn updated_score(old_score: i64, update: Option<Reading>) -> int {
    match update {
        Some(v) => v.score(),
        None => old_score as int,
    }
}

impl SpectralObject {
    /// The object is as `new` makes it from `kind`, `origin` and
    /// `signature`: no score, relationship or metadata yet, created and
    /// updated at the same moment.
    pub open spec fn is_new_from(
        &self,
        kind: SpectralKind,
        origin: Origin,
        signature: HashMap<String, serde_json::Value>,
    ) -> bool {
        &&& self.kind == kind
        &&& self.origin == origin
        &&& self.signature == signature
        &&& self.stability == 0
        &&& self.drift == 0
        &&& self.confidence == 0
        &&& self.relationships@.len() == 0
        &&& self.metadata@ == Map::<String, serde_json::Value>::empty()
        &&& self.created_at == self.updated_at
    }

    /// The object is `before` touched at the moment `now` with the given
    /// updates: identity, kind, origin, signature and creation time stay;
    /// given scores are coerced into the unit interval; given relationships
    /// replace the old ones; given metadata are laid over the old ones.
    pub open spec fn is_touched_from(
        &self,
        before: SpectralObject,
        stability: Option<Reading>,
        drift: Option<Reading>,
        confidence: Option<Reading>,
        relationships: Option<Vec<String>>,
        metadata: Option<HashMap<String, serde_json::Value>>,
        now: Timestamp,
    ) -> bool {
        &&& self.id == before.id
        &&& self.kind == before.kind
        &&& self.origin == before.origin
        &&& self.signature == before.signature
        &&& self.created_at == before.created_at
        &&& self.stability == updated_score(before.stability, stability)
        &&& self.drift == updated_score(before.drift, drift)
        &&& self.confidence == updated_score(before.confidence, confidence)
        &&& self.relationships == match relationships {
            Some(r) => r,
            None => before.relationships,
        }
        &&& self.metadata@ == match metadata {
            Some(m) => before.metadata@.union_prefer_right(m@),
            None => before.metadata@,
        }
        &&& self.updated_at == now
    }

    /// Builds a new object with the given identifier, created at `now`.
    pub fn with_id_at(
        id: String,
        now: Timestamp,
        kind: SpectralKind,
        origin: Origin,
        signature: HashMap<String, serde_json::Value>,
    ) -> (obj: SpectralObject)
        ensures
            obj.id == id,
            obj.created_at == now,
            obj.is_new_from(kind, origin, signature),
    {
        SpectralObject {
            id,
            kind,
            origin,
            signature,
            stability: 0,
            drift: 0,
            confidence: 0,
            relationships: Vec::new(),
            metadata: HashMap::new(),
            created_at: now,
            updated_at: now,
        }
    }

    /// Creates a new object under a fresh random identifier, created now.
    pub fn new(
        kind: SpectralKind,
        origin: Origin,
        signature: HashMap<String, serde_json::Value>,
    ) -> (obj: SpectralObject)
        ensures
            obj.is_new_from(kind, origin, signature),
            obj.id@.len() == 36,
    {
        let now = current_time();
        let id = fresh_object_id();
        SpectralObject::with_id_at(id, now, kind, origin, signature)
    }

    /// Applies the given updates and sets the time of the last update to
    /// `now`.
    pub fn touch_at(
        &mut self,
        stability: Option<Reading>,
        drift: Option<Reading>,
        confidence: Option<Reading>,
        relationships: Option<Vec<String>>,
        metadata: Option<HashMap<String, serde_json::Value>>,
        now: Timestamp,
    )
        ensures
            final(self).is_touched_from(
                *old(self),
                stability,
                drift,
                confidence,
                relationships,
                metadata,
                now,
            ),
    {
        if let Some(s) = stability {
            self.stability = s.coerce();
        }
        if let Some(d) = drift {
            self.drift = d.coerce();
        }
        if let Some(c) = confidence {
            self.confidence = c.coerce();
        }
        if let Some(r) = relationships {
            self.relationships = r;
        }
        if let Some(m) = metadata {
            extend_map(&mut self.metadata, m);
        }
        self.updated_at = now;
    }

    /// Applies the given updates and records the present moment as the time
    /// of the last update.
    pub fn touch(
        &mut self,
        stability: Option<Reading>,
        drift: Option<Reading>,
        confidence: Option<Reading>,
        relationships: Option<Vec<String>>,
        metadata: Option<HashMap<String, serde_json::Value>>,
    )
        ensures
            final(self).is_touched_from(
                *old(self),
                stability,
                drift,
                confidence,
                relationships,
                metadata,
                final(self).updated_at,
            ),
    {
        let now = current_time();
        self.touch_at(stability, drift, confidence, relationships, metadata, now);
    }
}

/// Catalog of spectral objects. No two of its objects share an identifier,
/// and the objects stand in the order in which their identifiers first came
/// in.
#[derive(Debug)]
pub struct SpectralRealityModel {
    objects: Vec<SpectralObject>,
}

/// Some object of `objects` has the identifier `id`.
pub open spec fn holds_id(objects: Seq<SpectralObject>, id: Seq<char>) -> bool {
    exists|i: int| 0 <= i < objects.len() && (#[trigger] objects[i]).id@ == id
}

/// A place in `objects` at which the identifier `id` stands, where there is
/// one.
pub open spec fn slot_of(objects: Seq<SpectralObject>, id: Seq<char>) -> int {
    choose|i: int| 0 <= i < objects.len() && (#[trigger] objects[i]).id@ == id
}

/// No identifier stands at two places of `objects`.
pub open spec fn ids_differ(objects: Seq<SpectralObject>) -> bool {
    forall|i: int, j: int|
        0 <= i < j < objects.len() ==> (#[trigger] objects[i]).id@ != (#[trigger] objects[j]).id@
}

/// The objects of one kind.
pub open spec fn of_kind(kind: SpectralKind) -> spec_fn(SpectralObject) -> bool {
    |o: SpectralObject| o.kind.same_as(&kind)
}

/// The objects whose stability reaches `threshold` and whose drift is at
/// most what `threshold` leaves of one.
pub open spec fn of_high_stability(threshold: int) -> spec_fn(SpectralObject) -> bool {
    |o: SpectralObject| o.stability >= threshold && o.drift <= SCALE - threshold
}

/// The objects that come from one domain.
pub open spec fn of_domain(domain: Seq<char>) -> spec_fn(SpectralObject) -> bool {
    |o: SpectralObject| o.origin.domain@ == domain
}

/// The objects that a sequence of references points to.
pub open spec fn pointees(refs: Seq<&SpectralObject>) -> Seq<SpectralObject> {
    refs.map_values(|r: &SpectralObject| *r)
}

/// Filtering one element more either appends that element or changes
/// nothing.
pub proof fn lemma_filter_next<A>(s: Seq<A>, keep: spec_fn(A) -> bool, i: int)
    requires
        0 <= i < s.len(),
    ensures
        s.take(i + 1).filter(keep) == if keep(s[i]) {
            s.take(i).filter(keep).push(s[i])
        } else {
            s.take(i).filter(keep)
        },
{
    reveal(Seq::filter);
    assert(s.take(i + 1).drop_last() =~= s.take(i));
    assert(s.take(i + 1).last() == s[i]);
}

impl SpectralRealityModel {
    /// The objects of the catalog, in the order in which their identifiers
    /// first came in.
    pub closed spec fn view(&self) -> Seq<SpectralObject> {
        self.objects@
    }

    /// The invariant of a catalog: no two of its objects share an
    /// identifier.
    pub open spec fn wf(&self) -> bool {
        ids_differ(self@)
    }

    /// Looks for the place of an identifier.
    fn find(&self, id: &String) -> (r: Option<usize>)
        requires
            self.wf(),
        ensures
            match r {
                Some(i) => i < self@.len() && self@[i as int].id@ == id@ && holds_id(self@, id@)
                    && slot_of(self@, id@) == i,
                None => !holds_id(self@, id@),
            },
    {
        let n: usize = self.objects.len();
        let mut i: usize = 0;
        while i < n
            invariant
                n == self.objects@.len(),
                i <= n,
                ids_differ(self.objects@),
                forall|k: int| 0 <= k < i ==> (#[trigger] self.objects@[k]).id@ != id@,
            decreases n - i,
        {
            if self.objects[i].id == *id {
                proof {
                    let w = slot_of(self.objects@, id@);
                    assert(self.objects@[i as int].id@ == id@);
                    assert(w == i) by {
                        if w < i {
                            assert(self.objects@[w].id@ != self.objects@[i as int].id@);
                        } else if w > i {
                            assert(self.objects@[i as int].id@ != self.objects@[w].id@);
                        }
                    }
                }
                return Some(i);
            }
            i = i + 1;
        }
        None
    }

    /// Inserts an object, or replaces the object that has its identifier,
    /// and hands back the object as the catalog now holds it.
    pub fn upsert(&mut self, obj: SpectralObject) -> (stored: &SpectralObject)
        requires
            old(self).wf(),
        ensures
            final(self).wf(),
            holds_id(old(self)@, obj.id@) ==> final(self)@ == old(self)@.update(
                slot_of(old(self)@, obj.id@),
                obj,
            ),
            !holds_id(old(self)@, obj.id@) ==> final(self)@ == old(self)@.push(obj),
            *stored == obj,
            holds_id(final(self)@, obj.id@),
            final(self)@[slot_of(final(self)@, obj.id@)] == obj,
    {
        let ghost before = self.objects@;
        let found = self.find(&obj.id);
        let at: usize = match found {
            Some(i) => {
                self.objects.set(i, obj);
                proof {
                    let after = self.objects@;
                    assert forall|a: int, b: int| 0 <= a < b < after.len() implies
                        (#[trigger] after[a]).id@ != (#[trigger] after[b]).id@ by {
                        assert(before[a].id@ != before[b].id@);
                    }
                }
                i
            },
            None => {
                let end: usize = self.objects.len();
                self.objects.push(obj);
                proof {
                    let after = self.objects@;
                    assert forall|a: int, b: int| 0 <= a < b < after.len() implies
                        (#[trigger] after[a]).id@ != (#[trigger] after[b]).id@ by {
                        if b < before.len() {
                            assert(before[a].id@ != before[b].id@);
                        } else {
                            assert(after[a] == before[a]);
                        }
                    }
                }
                end
            },
        };
        proof {
            let after = self.objects@;
            assert(after[at as int].id@ == obj.id@);
            let w = slot_of(after, obj.id@);
            if w < at {
                assert(after[w].id@ != after[at as int].id@);
            } else if w > at {
                assert(after[at as int].id@ != after[w].id@);
            }
        }
        &self.objects[at]
    }

    /// Retrieves the object with the given identifier, where the catalog
    /// holds one.
    pub fn get_by_id(&self, id: &str) -> (found: Option<&SpectralObject>)
        requires
            self.wf(),
        ensures
            match found {
                Some(o) => holds_id(self@, id@) && *o == self@[slot_of(self@, id@)] && o.id@ == id@,
                None => !holds_id(self@, id@),
            },
    {
        let wanted: String = id.to_owned();
        match self.find(&wanted) {
            Some(i) => Some(&self.objects[i]),
            None => None,
        }
    }

    /// Lists the objects of a given kind, in the order of the catalog.
    pub fn list_by_kind(&self, kind: &SpectralKind) -> (found: Vec<&SpectralObject>)
        ensures
            pointees(found@) == self@.filter(of_kind(*kind)),
    {
        let ghost keep = of_kind(*kind);
        let mut out: Vec<&SpectralObject> = Vec::new();
        let n: usize = self.objects.len();
        let mut i: usize = 0;
        while i < n
            invariant
                n == self.objects@.len(),
                i <= n,
                keep == of_kind(*kind),
                pointees(out@) == self.objects@.take(i as int).filter(keep),
            decreases n - i,
        {
            proof {
                lemma_filter_next(self.objects@, keep, i as int);
            }
            let o: &SpectralObject = &self.objects[i];
            if o.kind.matches(kind) {
                let ghost prev = out@;
                out.push(o);
                assert(pointees(out@) =~= pointees(prev).push(*o));
            }
            i = i + 1;
        }
        assert(self.objects@.take(n as int) =~= self.objects@);
        out
    }

    /// Lists the objects of high stability and low drift: those whose
    /// stability reaches `threshold` and whose drift is at most what
    /// `threshold` leaves of one. The order is that of the catalog.
    pub fn list_high_stability(&self, threshold: i64) -> (found: Vec<&SpectralObject>)
        ensures
            pointees(found@) == self@.filter(of_high_stability(threshold as int)),
    {
        let ghost keep = of_high_stability(threshold as int);
        let mut out: Vec<&SpectralObject> = Vec::new();
        let n: usize = self.objects.len();
        let mut i: usize = 0;
        while i < n
            invariant
                n == self.objects@.len(),
                i <= n,
                keep == of_high_stability(threshold as int),
                pointees(out@) == self.objects@.take(i as int).filter(keep),
            decreases n - i,
        {
            proof {
                lemma_filter_next(self.objects@, keep, i as int);
            }
            let o: &SpectralObject = &self.objects[i];
            let room: i128 = (SCALE as i128) - (threshold as i128);
            if o.stability >= threshold && (o.drift as i128) <= room {
                let ghost prev = out@;
                out.push(o);
                assert(pointees(out@) =~= pointees(prev).push(*o));
            }
            i = i + 1;
        }
        assert(self.objects@.take(n as int) =~= self.objects@);
        out
    }

    /// Lists the objects that come from a given domain, in the order of the
    /// catalog.
    pub fn list_by_domain(&self, domain: &str) -> (found: Vec<&SpectralObject>)
        ensures
            pointees(found@) == self@.filter(of_domain(domain@)),
    {
        let ghost keep = of_domain(domain@);
        let wanted: String = domain.to_owned();
        let mut out: Vec<&SpectralObject> = Vec::new();
        let n: usize = self.objects.len();
        let mut i: usize = 0;
        while i < n
            invariant
                n == self.objects@.len(),
                i <= n,
                wanted@ == domain@,
                keep == of_domain(domain@),
                pointees(out@) == self.objects@.take(i as int).filter(keep),
            decreases n - i,
        {
            proof {
                lemma_filter_next(self.objects@, keep, i as int);
            }
            let o: &SpectralObject = &self.objects[i];
            if o.origin.domain == wanted {
                let ghost prev = out@;
                out.push(o);
                assert(pointees(out@) =~= pointees(prev).push(*o));
            }
            i = i + 1;
        }
        assert(self.objects@.take(n as int) =~= self.objects@);
        out
    }

    /// All objects of the catalog, in its order.
    pub fn objects(&self) -> (all: &Vec<SpectralObject>)
        ensures
            all@ == self@,
    {
        &self.objects
    }

    /// The number of objects in the catalog.
    pub fn len(&self) -> (n: usize)
        ensures
            n == self@.len(),
    {
        self.objects.len()
    }
}

impl Default for SpectralRealityModel {
    /// The empty catalog.
    fn default() -> (model: SpectralRealityModel)
        ensures
            model@.len() == 0,
            model.wf(),
    {
        SpectralRealityModel { objects: Vec::new() }
    }
}

} // verus!
