//! The four operations of the layer: create a user, look a user up, create a
//! map, create a marker.
//!
//! Each operation issues exactly one statement. The statement itself is run
//! by the caller, who holds the connection: the operation is handed a
//! function that sends one row (or one key) to the store and brings back the
//! store's answer. What an operation returns is stated for every answer that
//! this function can give.

use crate::clock::read_clock;
use crate::clock::stamp_of;
use crate::clock::timestamp;
use crate::errors::Reported;
use crate::errors::StoreError;
use crate::ident::is_random_uuid_text;
use crate::ident::random_uuid_text;
use crate::letters::code_from;
use crate::letters::code_of;
use crate::letters::draw_code;
use crate::letters::is_map_code;
use crate::letters::ALPHABET_SIZE;
use crate::letters::CODE_LENGTH;
use crate::models::Binary64;
use crate::models::Marker;
use crate::models::User;
use crate::models::WalkMap;
use vstd::prelude::*;

verus! {

/// `row` is a fresh user row for the name `name`: it carries the name as
/// given and a new random UUID as its id.
pub open spec fn is_new_user(row: User, name: Seq<char>) -> bool {
    &&& row.name@ == name
    &&& is_random_uuid_text(row.id@)
}

/// `row` is a fresh map row: its id is a map code and it has no owner.
pub open spec fn is_new_map(row: WalkMap) -> bool {
    &&& is_map_code(row.id@)
    &&& row.user_id is None
}

/// `row` is a fresh marker row on the map `map_id` with the given sort key
/// and coordinates: it has a new random UUID as its id, and neither an
/// annotation nor an image.
pub open spec fn is_new_marker(
    row: Marker,
    map_id: Seq<char>,
    order_parameter: Binary64,
    lat: Binary64,
    lon: Binary64,
) -> bool {
    &&& is_random_uuid_text(row.id@)
    &&& row.map_id@ == map_id
    &&& row.order_parameter == order_parameter
    &&& row.lat == lat
    &&& row.lon == lon
    &&& row.annotation is None
    &&& row.image_url is None
}

/// What an insert of `row` returns for the store's answer: the row itself
/// once the store has taken it, however many rows the store counts, and
/// else the store's failure as it came.
pub open spec fn inserted<R>(row: R, reply: Result<usize, StoreError>) -> Result<R, StoreError> {
    match reply {
        Ok(_) => Ok(row),
        Err(e) => Err(e),
    }
}

/// What a lookup returns for the store's answer: the row that the store
/// found; nothing, without any error, where the store found no row; and
/// else the store's failure as it came.
pub open spec fn found<R>(reply: Result<R, StoreError>) -> Result<Option<R>, StoreError> {
    match reply {
        Ok(row) => Ok(Some(row)),
        Err(e) => if e.reported == Reported::NotFound {
            Ok(None)
        } else {
            Err(e)
        },
    }
}

/// Settles an insert of `row` on the store's answer.
pub fn settle_insert<R>(row: R, reply: Result<usize, StoreError>) -> (res: Result<R, StoreError>)
    ensures
        res == inserted(row, reply),
{
    match reply {
        Ok(_) => Ok(row),
        Err(e) => Err(e),
    }
}

/// Settles a lookup on the store's answer: a store that found no row has not
/// failed.
pub fn settle_lookup<R>(reply: Result<R, StoreError>) -> (res: Result<Option<R>, StoreError>)
    ensures
        res == found(reply),
{
    match reply {
        Ok(row) => Ok(Some(row)),
        Err(e) => {
            if e.reported == Reported::NotFound {
                Ok(None)
            } else {
                Err(e)
            }
        },
    }
}

/// Looks up the user whose id is `uid`.
///
/// `lookup` asks the store for the one user row whose id column equals the
/// key it is given. It is called once, with `uid` exactly as given: an id
/// that is no UUID is not refused here, it simply matches no row.
pub fn find_user_by_uid<F>(uid: &str, lookup: F) -> (res: Result<Option<User>, StoreError>) where
    F: FnOnce(&str) -> Result<User, StoreError>,

    requires
        lookup.requires((uid,)),
    ensures
        exists|reply: Result<User, StoreError>| #[trigger]
            lookup.ensures((uid,), reply) && res == found(reply),
{
    let reply = lookup(uid);
    settle_lookup(reply)
}

/// Creates a user named `nm`.
///
/// The name is stored as given. `execute` inserts the one row it is handed
/// into the users table; it is called once.
pub fn insert_new_user<F>(nm: &str, execute: F) -> (res: Result<User, StoreError>) where
    F: FnOnce(&User) -> Result<usize, StoreError>,

    requires
        forall|row: User| is_new_user(row, nm@) ==> #[trigger] execute.requires((&row,)),
    ensures
        exists|row: User, reply: Result<usize, StoreError>|
            is_new_user(row, nm@) && #[trigger] execute.ensures((&row,), reply) && res == inserted(
                row,
                reply,
            ),
        res matches Ok(user) ==> is_new_user(user, nm@),
{
    let new_user = User { id: random_uuid_text(), name: nm.to_owned() };
    let reply = execute(&new_user);
    settle_insert(new_user, reply)
}

/// Creates a marker on the map `map_id_` with the given sort key and
/// coordinates, without annotation or image.
///
/// That the map exists is not looked into here: the store refuses a marker
/// on a map it does not hold. `execute` inserts the one row it is handed
/// into the markers table; it is called once.
pub fn insert_new_marker<F>(
    map_id_: &str,
    order_parameter_: Binary64,
    lat_: Binary64,
    lon_: Binary64,
    execute: F,
) -> (res: Result<Marker, StoreError>) where
    F: FnOnce(&Marker) -> Result<usize, StoreError>,

    requires
        forall|row: Marker|
            is_new_marker(row, map_id_@, order_parameter_, lat_, lon_)
                ==> #[trigger] execute.requires((&row,)),
    ensures
        exists|row: Marker, reply: Result<usize, StoreError>|
            is_new_marker(row, map_id_@, order_parameter_, lat_, lon_)
                && #[trigger] execute.ensures((&row,), reply) && res == inserted(row, reply),
        res matches Ok(marker) ==> is_new_marker(marker, map_id_@, order_parameter_, lat_, lon_),
{
    let marker = Marker {
        id: random_uuid_text(),
        map_id: map_id_.to_owned(),
        order_parameter: order_parameter_,
        lat: lat_,
        lon: lon_,
        annotation: None,
        image_url: None,
    };
    let reply = execute(&marker);
    settle_insert(marker, reply)
}

/// The map row for five draws of the alphabet and a reading of the clock:
/// its id is the letters of the draws in the order drawn, it has no owner,
/// and it is stamped with the whole seconds that the clock read.
pub fn new_map_row(draws: &Vec<u32>, reading: Result<u64, u64>) -> (row: WalkMap)
    requires
        draws.len() == CODE_LENGTH,
        forall|i: int| 0 <= i < draws.len() ==> #[trigger] draws[i] < ALPHABET_SIZE,
    ensures
        row.id@ == code_of(draws@),
        row.user_id is None,
        row.created_at == stamp_of(reading),
        is_new_map(row),
{
    WalkMap { id: code_from(draws), user_id: None, created_at: timestamp(reading) }
}

/// Creates a map without an owner, under a freshly drawn code and stamped
/// with the wall clock's time.
///
/// The code is not checked against the maps that exist: the store refuses a
/// code that is taken. `execute` inserts the one row it is handed into the
/// maps table; it is called once.
pub fn insert_new_map<F>(execute: F) -> (res: Result<WalkMap, StoreError>) where
    F: FnOnce(&WalkMap) -> Result<usize, StoreError>,

    requires
        forall|row: WalkMap| is_new_map(row) ==> #[trigger] execute.requires((&row,)),
    ensures
        exists|row: WalkMap, reply: Result<usize, StoreError>|
            is_new_map(row) && #[trigger] execute.ensures((&row,), reply) && res == inserted(
                row,
                reply,
            ),
        res matches Ok(map) ==> is_new_map(map),
{
    let mut rng = rand::thread_rng();
    let draws = draw_code(&mut rng);
    let new_map = new_map_row(&draws, read_clock());
    let reply = execute(&new_map);
    settle_insert(new_map, reply)
}

} // verus!
