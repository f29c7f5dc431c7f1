//! The reading states of a map file: which part of the document the reader
//! stands in, and how an element's start or end moves it.  The reader
//! itself — pulling events from the document — lives outside the core; the
//! state machine deciding what each event means lives here.

use vstd::prelude::*;

use crate::attributes::element_is;
use crate::attributes::str_match_nocase;

verus! {

/// Where in a map document the reader stands.
#[derive(Debug, PartialEq, Eq, Clone, Copy, Structural)]
pub enum XmlReadingState {
    Root,
    InMap,
    InMapTileset,
    InMapLayer,
    InMapLayerData,
    InMapObjectgroup,
    InMapObjectgroupObject,
}

/// The reading state after an element starts, by its local name compared
/// without regard to ASCII case; an element that means nothing in the
/// current state leaves it unchanged.
pub open spec fn spec_start_element(state: XmlReadingState, name: Seq<char>) -> XmlReadingState {
    match state {
        XmlReadingState::Root => if str_match_nocase(name, "map"@) {
            XmlReadingState::InMap
        } else {
            state
        },
        XmlReadingState::InMap => if str_match_nocase(name, "layer"@) {
            XmlReadingState::InMapLayer
        } else if str_match_nocase(name, "tileset"@) {
            XmlReadingState::InMapTileset
        } else if str_match_nocase(name, "objectgroup"@) {
            XmlReadingState::InMapObjectgroup
        } else {
            state
        },
        XmlReadingState::InMapObjectgroup => if str_match_nocase(name, "object"@) {
            XmlReadingState::InMapObjectgroupObject
        } else {
            state
        },
        XmlReadingState::InMapObjectgroupObject => state,
        XmlReadingState::InMapLayer => if str_match_nocase(name, "data"@) {
            XmlReadingState::InMapLayerData
        } else {
            state
        },
        _ => state,
    }
}

/// The reading state after an element ends, by its local name compared
/// without regard to ASCII case; an element that means nothing in the
/// current state leaves it unchanged.
pub open spec fn spec_end_element(state: XmlReadingState, name: Seq<char>) -> XmlReadingState {
    match state {
        XmlReadingState::InMap => if str_match_nocase(name, "map"@) {
            XmlReadingState::Root
        } else {
            state
        },
        XmlReadingState::InMapLayer => if str_match_nocase(name, "layer"@) {
            XmlReadingState::InMap
        } else {
            state
        },
        XmlReadingState::InMapTileset => if str_match_nocase(name, "tileset"@) {
            XmlReadingState::InMap
        } else {
            state
        },
        XmlReadingState::InMapObjectgroup => if str_match_nocase(name, "objectgroup"@) {
            XmlReadingState::InMap
        } else {
            state
        },
        XmlReadingState::InMapObjectgroupObject => if str_match_nocase(name, "object"@) {
            XmlReadingState::InMapObjectgroup
        } else {
            state
        },
        XmlReadingState::InMapLayerData => if str_match_nocase(name, "data"@) {
            XmlReadingState::InMapLayer
        } else {
            state
        },
        _ => state,
    }
}

/// Moves the reading state across the start of an element.
pub fn start_element(state: XmlReadingState, local_name: &str) -> (r: XmlReadingState)
    ensures
        r == spec_start_element(state, local_name@),
{
    match state {
        XmlReadingState::Root => if element_is(local_name, "map") {
            XmlReadingState::InMap
        } else {
            state
        },
        XmlReadingState::InMap => if element_is(local_name, "layer") {
            XmlReadingState::InMapLayer
        } else if element_is(local_name, "tileset") {
            XmlReadingState::InMapTileset
        } else if element_is(local_name, "objectgroup") {
            XmlReadingState::InMapObjectgroup
        } else {
            state
        },
        XmlReadingState::InMapObjectgroup => if element_is(local_name, "object") {
            XmlReadingState::InMapObjectgroupObject
        } else {
            state
        },
        XmlReadingState::InMapObjectgroupObject => state,
        XmlReadingState::InMapLayer => if element_is(local_name, "data") {
            XmlReadingState::InMapLayerData
        } else {
            state
        },
        _ => state,
    }
}

/// Moves the reading state across the end of an element.
pub fn end_element(state: XmlReadingState, local_name: &str) -> (r: XmlReadingState)
    ensures
        r == spec_end_element(state, local_name@),
{
    match state {
        XmlReadingState::InMap => if element_is(local_name, "map") {
            XmlReadingState::Root
        } else {
            state
        },
        XmlReadingState::InMapLayer => if element_is(local_name, "layer") {
            XmlReadingState::InMap
        } else {
            state
        },
        XmlReadingState::InMapTileset => if element_is(local_name, "tileset") {
            XmlReadingState::InMap
        } else {
            state
        },
        XmlReadingState::InMapObjectgroup => if element_is(local_name, "objectgroup") {
            XmlReadingState::InMap
        } else {
            state
        },
        XmlReadingState::InMapObjectgroupObject => if element_is(local_name, "object") {
            XmlReadingState::InMapObjectgroup
        } else {
            state
        },
        XmlReadingState::InMapLayerData => if element_is(local_name, "data") {
            XmlReadingState::InMapLayer
        } else {
            state
        },
        _ => state,
    }
}

} // verus!
