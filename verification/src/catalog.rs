//! The catalog of registered producers: the single source of truth for
//! which identity is registered, under what name, and with what schema.
//!
//! Identities are unique: an insert under an identity already present is
//! refused, which is the uniqueness constraint that closes the race
//! between two registrations choosing the same identifier.

use vstd::prelude::*;
use crate::error::ConductorError;
use crate::schema::Schema;

verus! {

/// One catalog row: a producer's name, identity and registered schema.
#[derive(Debug)]
pub struct Producer {
    /// The human label given at registration; not unique.
    pub name: String,
    /// The identity every later emit refers to; unique in the catalog.
    pub uuid: String,
    /// The column set the producer committed to.
    pub schema: Schema,
}

impl Producer {
    /// A well-formed row: no field is empty.
    pub open spec fn wf(self) -> bool {
        self.name@.len() > 0 && self.uuid@.len() > 0 && self.schema@.len() > 0
    }
}

/// True when no identity occurs twice among the rows.
pub open spec fn unique_ids(rows: Seq<Producer>) -> bool {
    forall|i: int, j: int|
        0 <= i < rows.len() && 0 <= j < rows.len() && i != j ==> rows[i].uuid@ != rows[j].uuid@
}

/// True when some row carries the identity `id`.
pub open spec fn catalog_contains(rows: Seq<Producer>, id: Seq<char>) -> bool {
    exists|i: int| 0 <= i < rows.len() && rows[i].uuid@ == id
}

/// The position of the row carrying `id` (meaningful only when present).
pub open spec fn catalog_index_of(rows: Seq<Producer>, id: Seq<char>) -> int {
    choose|i: int| 0 <= i < rows.len() && rows[i].uuid@ == id
}

/// The row carrying `id` (meaningful only when present).
pub open spec fn catalog_record_for(rows: Seq<Producer>, id: Seq<char>) -> Producer {
    rows[catalog_index_of(rows, id)]
}

/// When identities are unique, any row carrying `id` stands at its index.
pub proof fn lemma_catalog_unique_index(rows: Seq<Producer>, id: Seq<char>, i: int)
    requires
        unique_ids(rows),
        0 <= i < rows.len(),
        rows[i].uuid@ == id,
    ensures
        catalog_contains(rows, id),
        catalog_index_of(rows, id) == i,
        catalog_record_for(rows, id) == rows[i],
{
    assert(catalog_contains(rows, id));
    let j = catalog_index_of(rows, id);
    assert(0 <= j < rows.len() && rows[j].uuid@ == id);
    if i != j {
        assert(rows[i].uuid@ != rows[j].uuid@);
    }
}

/// The persisted mapping from producer identity to name and schema.
#[derive(Debug)]
pub struct ProducerCatalog {
    rows: Vec<Producer>,
}

impl View for ProducerCatalog {
    type V = Seq<Producer>;

    closed spec fn view(&self) -> Seq<Producer> {
        self.rows@
    }
}

impl ProducerCatalog {
    /// Identities never repeat; holds of every catalog by construction.
    #[verifier::type_invariant]
    pub open spec fn type_inv(self) -> bool {
        unique_ids(self@)
    }

    /// An empty catalog.
    pub fn new() -> (r: Self)
        ensures
            r@ =~= Seq::<Producer>::empty(),
    {
        ProducerCatalog { rows: Vec::new() }
    }

    /// The number of registered producers.
    pub fn len(&self) -> (n: usize)
        ensures
            n == self@.len(),
    {
        self.rows.len()
    }

    /// True when an entry carries this identity.
    pub fn contains_id(&self, uuid: &str) -> (b: bool)
        ensures
            b == catalog_contains(self@, uuid@),
    {
        let n = self.rows.len();
        let mut i: usize = 0;
        while i < n
            invariant
                n == self@.len(),
                0 <= i <= n,
                forall|j: int| 0 <= j < i ==> (#[trigger] self@[j]).uuid@ != uuid@,
            decreases n - i,
        {
            if crate::schema::str_eq(self.rows[i].uuid.as_str(), uuid) {
                assert(self@[i as int].uuid@ == uuid@);
                return true;
            }
            i = i + 1;
        }
        false
    }

    /// Adds a row, refusing an identity that is already registered.
    ///
    /// The refusal enforces, at the store level, that one identity is
    /// registered at most once.
    pub fn insert(&mut self, row: Producer) -> (r: Result<(), ConductorError>)
        ensures
            catalog_contains(old(self)@, row.uuid@) ==> (r matches Err(e) && e is InvalidUuid
                && final(self)@ == old(self)@),
            !catalog_contains(old(self)@, row.uuid@) ==> (r is Ok && final(self)@ =~= old(
                self,
            )@.push(row)),
    {
        proof {
            use_type_invariant(&*self);
        }
        if self.contains_id(row.uuid.as_str()) {
            return Err(
                ConductorError::InvalidUuid(
                    String::from_str("a producer with this id is already registered"),
                ),
            );
        }
        let ghost old_rows = self@;
        let ghost added = row;
        let mut rows: Vec<Producer> = Vec::new();
        std::mem::swap(&mut rows, &mut self.rows);
        rows.push(row);
        proof {
            assert forall|i: int, j: int|
                0 <= i < rows@.len() && 0 <= j < rows@.len() && i != j implies (
            #[trigger] rows@[i]).uuid@ != (#[trigger] rows@[j]).uuid@ by {
                if i < old_rows.len() && j < old_rows.len() {
                    assert(old_rows[i].uuid@ != old_rows[j].uuid@);
                } else if i == old_rows.len() {
                    assert(!catalog_contains(old_rows, added.uuid@));
                    assert(rows@[j] == old_rows[j]);
                } else {
                    assert(!catalog_contains(old_rows, added.uuid@));
                    assert(rows@[i] == old_rows[i]);
                }
            }
        }
        self.rows = rows;
        Ok(())
    }

    /// Fetches the row registered under `uuid`.
    ///
    /// Fails with `InvalidUuid` when the id is empty, `Unregistered` when
    /// no row carries it, and `InternalError` when the row found is not
    /// well-formed (a catalog invariant violation). Two rows can never
    /// carry one identity here, since inserts refuse duplicates, so the
    /// malformed row is the one inconsistency left to classify.
    pub fn lookup(&self, uuid: &str) -> (r: Result<&Producer, ConductorError>)
        ensures
            uuid@.len() == 0 ==> (r matches Err(e) && e is InvalidUuid),
            uuid@.len() > 0 && !catalog_contains(self@, uuid@) ==> (r matches Err(e)
                && e is Unregistered),
            uuid@.len() > 0 && catalog_contains(self@, uuid@) && !catalog_record_for(
                self@,
                uuid@,
            ).wf() ==> (r matches Err(e) && e is InternalError),
            uuid@.len() > 0 && catalog_contains(self@, uuid@) && catalog_record_for(
                self@,
                uuid@,
            ).wf() ==> (r matches Ok(p) && *p == catalog_record_for(self@, uuid@)),
    {
        if uuid.unicode_len() == 0 {
            return Err(ConductorError::InvalidUuid(String::from_str("the id is empty")));
        }
        proof {
            use_type_invariant(self);
        }
        let n = self.rows.len();
        let mut i: usize = 0;
        while i < n
            invariant
                n == self@.len(),
                0 <= i <= n,
                unique_ids(self@),
                uuid@.len() > 0,
                forall|j: int| 0 <= j < i ==> (#[trigger] self@[j]).uuid@ != uuid@,
            decreases n - i,
        {
            if crate::schema::str_eq(self.rows[i].uuid.as_str(), uuid) {
                proof {
                    lemma_catalog_unique_index(self@, uuid@, i as int);
                }
                let p = &self.rows[i];
                if p.name.as_str().unicode_len() == 0 || p.schema.is_empty() {
                    return Err(
                        ConductorError::InternalError(
                            String::from_str("the catalog row for this id is malformed"),
                        ),
                    );
                }
                return Ok(p);
            }
            i = i + 1;
        }
        Err(ConductorError::Unregistered(String::from_str("no producer is registered under this id")))
    }
}

} // verus!
