//! Records of the data model exchanged with the mobile device and kept by the
//! desktop store. Coordinates and other measured values travel beside these
//! records, in the host.

use vstd::prelude::*;
use crate::classify::{action_kind, action_kind_of, ActionKind};
use crate::wire::{ack_text, create_ack_response, json_string_literal};

verus! {

/// An event as stored.
#[derive(Debug)]
pub struct Event {
    pub id: String,
    pub name: Option<String>,
    pub start_date: Option<String>,
    pub end_date: Option<String>,
    pub zone: Option<String>,
    pub parcours: Option<String>,
}

/// A zone of an event.
#[derive(Debug)]
pub struct Zone {
    pub id: String,
    pub event_id: String,
    pub name: Option<String>,
    pub color: Option<String>,
    pub description: Option<String>,
    pub geometry_json: Option<String>,
}

/// A team of an event.
#[derive(Debug)]
pub struct Team {
    pub id: String,
    pub name: Option<String>,
    pub number: i64,
    pub event_id: String,
}

/// A person's membership of a team.
#[derive(Debug)]
pub struct Member {
    pub id: String,
    pub team_id: String,
    pub person_id: String,
}

/// A piece of equipment.
#[derive(Debug)]
pub struct Equipement {
    pub id: String,
    pub type_id: Option<String>,
    pub length: Option<i32>,
    pub description: Option<String>,
    pub date_pose: Option<String>,
    pub hour_pose: Option<String>,
    pub date_depose: Option<String>,
    pub hour_depose: Option<String>,
}

/// An account of the desktop application.
#[derive(Debug)]
pub struct User {
    pub id: i64,
    pub username: Option<String>,
    pub password_hash: Option<String>,
    pub role: Option<String>,
}

/// A person who can join teams.
#[derive(Debug)]
pub struct Person {
    pub id: String,
    pub firstname: Option<String>,
    pub lastname: Option<String>,
    pub email: Option<String>,
    pub phone_number: Option<String>,
}

/// A stored photo of a point.
#[derive(Debug)]
pub struct Picture {
    pub id: i64,
    pub point_id: Option<String>,
    pub image: Option<String>,
}

/// A comment on a point.
#[derive(Debug)]
pub struct Comment {
    pub id: String,
    pub point_id: String,
    pub value: String,
}

/// A drawn geometry of an event: `point`, `parcours` or `zone`.
#[derive(Debug)]
pub struct Geometry {
    pub id: String,
    pub event_id: String,
    pub geom: String,
    pub geom_type: String,
    pub name: Option<String>,
}

/// A photo as submitted with a point.
#[derive(Debug)]
pub struct PictureInput {
    pub id: String,
    pub point_id: String,
    pub image: Option<String>,
}

/// A scheduled action of a team on a piece of equipment.
#[derive(Debug)]
pub struct Action {
    pub id: String,
    pub team_id: String,
    pub equipement_id: String,
    pub action_type: Option<String>,
    pub scheduled_time: Option<String>,
    pub is_done: Option<bool>,
}

/// The team part of a planning payload.
#[derive(Debug)]
pub struct TransferTeamInfo {
    pub id: String,
    pub name: String,
    pub event_id: String,
}

/// An equipment row of a planning payload, before its coordinates are attached.
#[derive(Debug)]
pub struct TransferEquipementWithoutCoords {
    pub id: String,
    pub event_id: String,
    pub type_id: String,
    pub quantity: Option<i32>,
    pub length_per_unit: Option<i32>,
    pub date_pose: Option<String>,
    pub date_depose: Option<String>,
}

/// The mobile device's confirmation that it received a pushed event.
#[derive(Debug)]
pub struct EventAck {
    pub id: String,
    pub name: String,
    pub description: Option<String>,
    pub date_debut: Option<String>,
    pub date_fin: Option<String>,
    pub statut: Option<String>,
    pub geometry: Option<String>,
}

/// The flat `{code, message}` acknowledgment sent to the mobile device.
#[derive(Debug)]
pub struct AckResponse {
    pub code: i32,
    pub message: String,
}

impl AckResponse {
    /// The acknowledgment as the JSON text sent on the wire.
    pub fn to_json(&self) -> (r: String)
        ensures
            r@ == ack_text(self.code as int, json_string_literal(self.message@)),
    {
        create_ack_response(self.code, self.message.as_str())
    }
}

/// An action requested by the mobile device.
#[derive(Debug)]
pub struct ClientAction {
    pub action: String,
}

impl ClientAction {
    /// Which action is requested.
    pub fn kind(&self) -> (r: ActionKind)
        ensures
            r == action_kind_of(self.action@),
    {
        action_kind(self.action.as_str())
    }
}

/// A comment submitted with a mobile point.
#[derive(Debug)]
pub struct MobileComment {
    pub id: String,
    pub point_id: String,
    pub value: String,
}

/// A photo submitted with a mobile point.
#[derive(Debug)]
pub struct MobilePicture {
    pub id: String,
    pub point_id: String,
    pub image: String,
}

/// An obstacle submitted with a mobile point.
#[derive(Debug)]
pub struct MobileObstacle {
    pub id: String,
    pub point_id: String,
    pub type_id: i64,
    pub number: i32,
}

/// The event part of a mobile export.
#[derive(Debug)]
pub struct MobileExportEvent {
    pub id: String,
    pub name: String,
    pub description: Option<String>,
    pub start_date: Option<String>,
    pub end_date: Option<String>,
    pub statut: Option<String>,
    pub geometry: Option<String>,
    pub calculated_status: Option<String>,
}

/// A team as listed in the planning view.
#[derive(Debug)]
pub struct PlanningTeam {
    pub id: String,
    pub name: String,
    pub event_id: String,
}

/// An action as listed in the planning view.
#[derive(Debug)]
pub struct PlanningAction {
    pub id: String,
    pub team_id: String,
    pub equipement_id: String,
    pub action_type: String,
    pub scheduled_time: String,
    pub is_done: bool,
}

/// A team with its actions.
#[derive(Debug)]
pub struct TeamWithActions {
    pub id: String,
    pub name: String,
    pub event_id: String,
    pub actions: Vec<PlanningAction>,
}

/// One hit of the local address search; coordinates are kept as text.
#[derive(Debug)]
pub struct SearchResult {
    pub lat: String,
    pub lon: String,
    pub display_name: String,
}

/// A map crop assembled from tiles.
#[derive(Debug)]
pub struct CroppedMap {
    pub image_path: String,
    pub zoom: u8,
    pub tile_origin_x: u32,
    pub tile_origin_y: u32,
    pub width_tiles: u32,
    pub height_tiles: u32,
}

/// Where the offline tile archive lies, as a path and as a URL.
#[derive(Debug)]
pub struct PmtilesPath {
    pub path: String,
    pub url: String,
}

} // verus!
