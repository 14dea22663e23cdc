//! The relational schema behind the layer, as a mathematical model: three
//! tables, the key of each, and the references between them.
//!
//! The store is not part of this library. What is stated here is what a
//! store that keeps this schema answers to the layer's four statements, and
//! what the operations of `actions` then return. Every law below is about
//! such a store, and about an answer that came from the store: a statement
//! that never reached it is answered by the driver alone.

use crate::actions::found;
use crate::actions::inserted;
use crate::errors::ErrorKind;
use crate::errors::Reported;
use crate::errors::StoreError;
use crate::models::Marker;
use crate::models::MarkerView;
use crate::models::User;
use crate::models::UserView;
use crate::models::WalkMap;
use crate::models::WalkMapView;
use vstd::prelude::*;

verus! {

/// What the three tables hold. Each table is keyed by its id column, so no
/// two rows of a table share an id.
pub struct Tables {
    pub users: Map<Seq<char>, UserView>,
    pub maps: Map<Seq<char>, WalkMapView>,
    pub markers: Map<Seq<char>, MarkerView>,
}

/// `reply` answers an insert in a store that keeps its keys and references.
/// `taken` says that the new row's id is in the table already, `dangling`
/// that the row refers to a row that is not there. The store takes the row,
/// and counts one row, exactly if neither holds; else it reports one of the
/// rules that the row breaks.
pub open spec fn answers_insert(taken: bool, dangling: bool, reply: Result<usize, StoreError>) -> bool {
    match reply {
        Ok(n) => n == 1 && !taken && !dangling,
        Err(e) => (taken && e.reported == Reported::UniqueViolation) || (dangling && e.reported
            == Reported::ForeignKeyViolation),
    }
}

impl Tables {
    /// Three empty tables.
    pub open spec fn empty() -> Tables {
        Tables { users: Map::empty(), maps: Map::empty(), markers: Map::empty() }
    }

    /// The tables keep the schema: every row is filed under its own id,
    /// every map with an owner refers to a user that exists, and every
    /// marker refers to a map that exists.
    pub open spec fn keeps_schema(self) -> bool {
        &&& forall|id: Seq<char>| #[trigger]
            self.users.dom().contains(id) ==> self.users[id].id == id
        &&& forall|id: Seq<char>| #[trigger]
            self.maps.dom().contains(id) ==> {
                &&& self.maps[id].id == id
                &&& self.maps[id].user_id matches Some(owner) ==> self.users.dom().contains(owner)
            }
        &&& forall|id: Seq<char>| #[trigger]
            self.markers.dom().contains(id) ==> {
                &&& self.markers[id].id == id
                &&& self.maps.dom().contains(self.markers[id].map_id)
            }
    }

    /// The map row refers to a user that the tables do not hold.
    pub open spec fn owner_missing(self, row: WalkMapView) -> bool {
        row.user_id matches Some(owner) && !self.users.dom().contains(owner)
    }

    /// `reply` answers the lookup of the user with id `uid`: the row under
    /// that id, or the report that no row was found.
    pub open spec fn answers_user_lookup(self, uid: Seq<char>, reply: Result<User, StoreError>) -> bool {
        match reply {
            Ok(row) => self.users.dom().contains(uid) && row@ == self.users[uid],
            Err(e) => !self.users.dom().contains(uid) && e.reported == Reported::NotFound,
        }
    }

    /// `reply` answers the insert of the user row `row`.
    pub open spec fn answers_user_insert(self, row: UserView, reply: Result<usize, StoreError>) -> bool {
        answers_insert(self.users.dom().contains(row.id), false, reply)
    }

    /// `reply` answers the insert of the map row `row`.
    pub open spec fn answers_map_insert(self, row: WalkMapView, reply: Result<usize, StoreError>) -> bool {
        answers_insert(self.maps.dom().contains(row.id), self.owner_missing(row), reply)
    }

    /// `reply` answers the insert of the marker row `row`.
    pub open spec fn answers_marker_insert(self, row: MarkerView, reply: Result<usize, StoreError>) -> bool {
        answers_insert(
            self.markers.dom().contains(row.id),
            !self.maps.dom().contains(row.map_id),
            reply,
        )
    }

    /// The tables after the insert of a user row was answered with `reply`:
    /// the row is there if the store took it, and nothing has changed if not.
    pub open spec fn after_user_insert(self, row: UserView, reply: Result<usize, StoreError>) -> Tables {
        if reply is Ok {
            Tables { users: self.users.insert(row.id, row), ..self }
        } else {
            self
        }
    }

    /// The tables after the insert of a map row was answered with `reply`.
    pub open spec fn after_map_insert(self, row: WalkMapView, reply: Result<usize, StoreError>) -> Tables {
        if reply is Ok {
            Tables { maps: self.maps.insert(row.id, row), ..self }
        } else {
            self
        }
    }

    /// The tables after the insert of a marker row was answered with `reply`.
    pub open spec fn after_marker_insert(self, row: MarkerView, reply: Result<usize, StoreError>) -> Tables {
        if reply is Ok {
            Tables { markers: self.markers.insert(row.id, row), ..self }
        } else {
            self
        }
    }
}

/// Empty tables keep the schema.
pub proof fn lemma_empty_keeps_schema()
    ensures
        Tables::empty().keeps_schema(),
{
}

/// An insert of a user row, however the store answers it, leaves the schema
/// kept.
pub proof fn lemma_user_insert_keeps_schema(t: Tables, row: UserView, reply: Result<usize, StoreError>)
    requires
        t.keeps_schema(),
        t.answers_user_insert(row, reply),
    ensures
        t.after_user_insert(row, reply).keeps_schema(),
{
}

/// An insert of a map row, however the store answers it, leaves the schema
/// kept.
pub proof fn lemma_map_insert_keeps_schema(t: Tables, row: WalkMapView, reply: Result<usize, StoreError>)
    requires
        t.keeps_schema(),
        t.answers_map_insert(row, reply),
    ensures
        t.after_map_insert(row, reply).keeps_schema(),
{
}

/// An insert of a marker row, however the store answers it, leaves the
/// schema kept.
pub proof fn lemma_marker_insert_keeps_schema(
    t: Tables,
    row: MarkerView,
    reply: Result<usize, StoreError>,
)
    requires
        t.keeps_schema(),
        t.answers_marker_insert(row, reply),
    ensures
        t.after_marker_insert(row, reply).keeps_schema(),
{
}

/// Round trip: after a user was created, looking up the id of the user that
/// the insert returned finds a user with the same id and name.
///
/// `stored` is the store's answer to the insert, `looked_up` its answer to
/// the lookup that follows.
pub proof fn lemma_created_user_is_found(
    t: Tables,
    row: User,
    stored: Result<usize, StoreError>,
    looked_up: Result<User, StoreError>,
)
    requires
        t.answers_user_insert(row@, stored),
        inserted(row, stored) is Ok,
        t.after_user_insert(row@, stored).answers_user_lookup(row.id@, looked_up),
    ensures
        inserted(row, stored) == Ok::<User, StoreError>(row),
        found(looked_up) matches Ok(Some(user)) && user@ == row@,
{
}

/// Looking up an id under which the store holds no user returns nothing,
/// and no error.
pub proof fn lemma_unknown_user_is_absent(
    t: Tables,
    uid: Seq<char>,
    looked_up: Result<User, StoreError>,
)
    requires
        !t.users.dom().contains(uid),
        t.answers_user_lookup(uid, looked_up),
    ensures
        found(looked_up) == Ok::<Option<User>, StoreError>(None),
{
}

/// A marker on a map that the store does not hold is refused: the insert
/// fails with a constraint violation, and the tables stay as they were.
pub proof fn lemma_marker_needs_its_map(t: Tables, row: Marker, reply: Result<usize, StoreError>)
    requires
        !t.maps.dom().contains(row.map_id@),
        t.answers_marker_insert(row@, reply),
    ensures
        inserted(row, reply) matches Err(e) && e.spec_kind() == ErrorKind::ConstraintViolation,
        t.after_marker_insert(row@, reply) == t,
{
}

/// A marker with an unused id on a map that was just created is taken: the
/// insert returns the marker row as it was sent, and the store then holds
/// it.
pub proof fn lemma_marker_on_created_map(
    t: Tables,
    map: WalkMap,
    map_stored: Result<usize, StoreError>,
    marker: Marker,
    marker_stored: Result<usize, StoreError>,
)
    requires
        t.answers_map_insert(map@, map_stored),
        inserted(map, map_stored) is Ok,
        marker.map_id@ == map.id@,
        !t.markers.dom().contains(marker.id@),
        t.after_map_insert(map@, map_stored).answers_marker_insert(marker@, marker_stored),
    ensures
        inserted(marker, marker_stored) == Ok::<Marker, StoreError>(marker),
        t.after_map_insert(map@, map_stored).after_marker_insert(
            marker@,
            marker_stored,
        ).markers.dom().contains(marker.id@),
{
}

} // verus!
