//! The rows of the three tables, and their mathematical views.

use vstd::prelude::*;

verus! {

/// A number in IEEE-754 binary64 form, held by its bit pattern.
///
/// The layer stores and returns coordinates and sort keys without ever
/// computing with them, so the 64 bits are all it needs.
#[derive(Debug, Clone, Copy)]
pub struct Binary64 {
    pub bits: u64,
}

/// A registered user.
#[derive(Debug)]
pub struct User {
    /// Hyphenated UUID text, unique among users.
    pub id: String,
    /// Display name, stored as given.
    pub name: String,
}

/// What a client sends to have a user created.
#[derive(Debug)]
pub struct NewUser {
    pub name: String,
}

/// A map: a collection of markers under a short code.
#[derive(Debug)]
pub struct WalkMap {
    /// Five upper-case letters.
    pub id: String,
    /// The owning user, if any.
    pub user_id: Option<String>,
    /// Whole seconds since the Unix epoch.
    pub created_at: i64,
}

/// An annotated point on a map.
#[derive(Debug)]
pub struct Marker {
    /// Hyphenated UUID text, unique among markers.
    pub id: String,
    /// The map this marker belongs to.
    pub map_id: String,
    /// Sort key among the markers of one map; lower sorts first.
    pub order_parameter: Binary64,
    /// Latitude in degrees.
    pub lat: Binary64,
    /// Longitude in degrees.
    pub lon: Binary64,
    pub annotation: Option<String>,
    pub image_url: Option<String>,
}

pub struct UserView {
    pub id: Seq<char>,
    pub name: Seq<char>,
}

pub struct NewUserView {
    pub name: Seq<char>,
}

pub struct WalkMapView {
    pub id: Seq<char>,
    pub user_id: Option<Seq<char>>,
    pub created_at: int,
}

pub struct MarkerView {
    pub id: Seq<char>,
    pub map_id: Seq<char>,
    pub order_parameter: u64,
    pub lat: u64,
    pub lon: u64,
    pub annotation: Option<Seq<char>>,
    pub image_url: Option<Seq<char>>,
}

/// The text of an optional string.
pub open spec fn text_of(s: Option<String>) -> Option<Seq<char>> {
    match s {
        Some(t) => Some(t@),
        None => None,
    }
}

impl View for User {
    type V = UserView;

    open spec fn view(&self) -> UserView {
        UserView { id: self.id@, name: self.name@ }
    }
}

impl View for NewUser {
    type V = NewUserView;

    open spec fn view(&self) -> NewUserView {
        NewUserView { name: self.name@ }
    }
}

impl View for WalkMap {
    type V = WalkMapView;

    open spec fn view(&self) -> WalkMapView {
        WalkMapView {
            id: self.id@,
            user_id: text_of(self.user_id),
            created_at: self.created_at as int,
        }
    }
}

impl View for Marker {
    type V = MarkerView;

    open spec fn view(&self) -> MarkerView {
        MarkerView {
            id: self.id@,
            map_id: self.map_id@,
            order_parameter: self.order_parameter.bits,
            lat: self.lat.bits,
            lon: self.lon.bits,
            annotation: text_of(self.annotation),
            image_url: text_of(self.image_url),
        }
    }
}

/// A copy of an optional string with the same text.
fn copy_text(s: &Option<String>) -> (r: Option<String>)
    ensures
        text_of(r) == text_of(*s),
{
    match s {
        Some(t) => Some(t.clone()),
        None => None,
    }
}

impl Clone for User {
    fn clone(&self) -> (r: Self)
        ensures
            r@ == self@,
    {
        User { id: self.id.clone(), name: self.name.clone() }
    }
}

impl Clone for NewUser {
    fn clone(&self) -> (r: Self)
        ensures
            r@ == self@,
    {
        NewUser { name: self.name.clone() }
    }
}

impl Clone for WalkMap {
    fn clone(&self) -> (r: Self)
        ensures
            r@ == self@,
    {
        WalkMap {
            id: self.id.clone(),
            user_id: copy_text(&self.user_id),
            created_at: self.created_at,
        }
    }
}

impl Clone for Marker {
    fn clone(&self) -> (r: Self)
        ensures
            r@ == self@,
    {
        Marker {
            id: self.id.clone(),
            map_id: self.map_id.clone(),
            order_parameter: self.order_parameter,
            lat: self.lat,
            lon: self.lon,
            annotation: copy_text(&self.annotation),
            image_url: copy_text(&self.image_url),
        }
    }
}

} // verus!
