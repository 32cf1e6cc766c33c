//! Tags: named patterns that clients are matched against.

use vstd::prelude::*;
use crate::client::Client;
use crate::pattern::{Pattern, pattern_matches};
use crate::rect::Rect;

verus! {

/// Gravity property.
pub const TAG_GRAVITY: u32 = 1u32 << 0u32;
/// Geometry property.
pub const TAG_GEOMETRY: u32 = 1u32 << 1u32;
/// Position property.
pub const TAG_POSITION: u32 = 1u32 << 2u32;
/// Tagging proc.
pub const TAG_PROC: u32 = 1u32 << 3u32;

/// A tag with the pattern clients are matched against and the properties it
/// gives them.
#[derive(Debug)]
pub struct Tag {
    pub flags: u32,
    pub name: String,
    pub pattern: Option<Pattern>,
    pub screen_id: usize,
    pub gravity_id: usize,
    pub geom: Rect,
}

/// Whether a tag with this pattern matches a window with these names.
pub open spec fn tag_matches(
    pattern: Option<Seq<char>>,
    name: Seq<char>,
    instance: Seq<char>,
    klass: Seq<char>,
) -> bool {
    match pattern {
        Some(p) => pattern_matches(p, name) || pattern_matches(p, instance) || pattern_matches(
            p,
            klass,
        ),
        None => false,
    }
}

/// The source of an optional pattern.
pub open spec fn pattern_source(p: Option<Pattern>) -> Option<Seq<char>> {
    match p {
        Some(p) => Some(p@),
        None => None,
    }
}

impl Tag {
    /// A tag with the given name and nothing else set.
    pub fn new(name: String) -> (t: Tag)
        ensures
            t.name == name,
            t.flags == 0,
            t.pattern is None,
            t.screen_id == 0,
            t.gravity_id == 0,
            t.geom == Rect::default_spec(),
    {
        Tag {
            flags: 0,
            name,
            pattern: None,
            screen_id: 0,
            gravity_id: 0,
            geom: Rect { x: 0, y: 0, width: 0, height: 0 },
        }
    }

    /// Whether the pattern of this tag matches the name, instance or class of
    /// the client; a tag without pattern matches nothing.
    pub fn matches(&self, client: &Client) -> (r: bool)
        ensures
            r == tag_matches(
                pattern_source(self.pattern),
                client.name@,
                client.instance@,
                client.klass@,
            ),
    {
        match &self.pattern {
            Some(p) => p.is_match(client.name.as_str()) || p.is_match(client.instance.as_str())
                || p.is_match(client.klass.as_str()),
            None => false,
        }
    }
}

} // verus!
