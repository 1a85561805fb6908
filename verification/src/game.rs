//! The immutable record a menu entry displays: one game of a day's schedule.

use vstd::prelude::*;

verus! {

/// What the carousel needs of one scheduled game, flattened from the
/// provider's schedule record: the team names for the "home vs away" title,
/// and the recap caption with its image reference.
#[derive(Clone)]
pub struct Game {
    /// Opaque game identifier, e.g. the schedule's `gamePk`.
    pub id: u32,
    /// Display name of the home team.
    pub home_name: String,
    /// Display name of the away team.
    pub away_name: String,
    /// Caption of the recap photo, drawn under the highlighted card.
    pub recap_label: String,
    /// Reference (e.g. a URL) the provider resolves to the recap image bytes.
    pub recap_image_ref: String,
}

impl Game {
    /// The recap caption and the reference of its image.
    pub fn get_recap(&self) -> (r: (&String, &String))
        ensures
            r.0 == &self.recap_label,
            r.1 == &self.recap_image_ref,
    {
        (&self.recap_label, &self.recap_image_ref)
    }
}

} // verus!
