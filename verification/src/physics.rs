//! The contacts that the physics world reports after a step.

use vstd::prelude::*;
use bevy::prelude::Entity;
use bevy_rapier2d::prelude::{ColliderHandle, IntoHandle, NarrowPhase};
use crate::alarm::{Alarm, Contact};

verus! {

/// The narrow phase of the physics world, which holds the contact pairs of
/// the latest step. Nothing of what it holds is visible to the rules.
#[verifier::external_type_specification]
#[verifier::external_body]
pub struct ExNarrowPhase(bevy_rapier2d::prelude::NarrowPhase);

/// The handles of the bodies that an alarm can touch, as `u64` bit
/// patterns of their entities.
#[derive(Clone, Copy, Debug, PartialEq, Eq, Structural)]
pub struct Bodies {
    pub player: u64,
    pub reflector: u64,
    pub sun: u64,
    pub moon: u64,
}

/// What a narrow phase holds: the contact pairs of the latest step. A pair
/// of colliders, each given by the bit pattern of its entity, is a key
/// where `NarrowPhase::contact_pair` finds a contact pair for the two; the
/// value is that pair's `has_any_active_contact`.
pub uninterp spec fn contact_pairs(narrow_phase: NarrowPhase) -> Map<(u64, u64), bool>;

/// Whether the narrow phase holds a contact pair for the colliders `a` and
/// `b` that has an active contact.
pub open spec fn touches(narrow_phase: NarrowPhase, a: u64, b: u64) -> bool {
    contact_pairs(narrow_phase).contains_key((a, b)) && contact_pairs(narrow_phase)[(a, b)]
}

/// What the alarm with handle `alarm` touches, by the narrow phase.
pub open spec fn contact_spec(narrow_phase: NarrowPhase, bodies: Bodies, alarm: u64) -> Contact {
    Contact {
        reflector: touches(narrow_phase, bodies.reflector, alarm),
        player: touches(narrow_phase, bodies.player, alarm),
        sun: touches(narrow_phase, bodies.sun, alarm),
        moon: touches(narrow_phase, bodies.moon, alarm),
    }
}

/// What every alarm touches, by the narrow phase, in the alarms' order.
pub open spec fn contacts_spec(
    narrow_phase: NarrowPhase,
    bodies: Bodies,
    alarms: Seq<Alarm>,
) -> Seq<Contact> {
    Seq::new(alarms.len(), |i: int| contact_spec(narrow_phase, bodies, alarms[i].id))
}

/// Calls `NarrowPhase::contact_pair` of rapier for the two colliders whose
/// entities have the bit patterns `a` and `b` (turned into handles by
/// `Entity::from_bits` and `IntoHandle::handle`), and hands back the
/// pair's `has_any_active_contact`, or nothing where the narrow phase
/// holds no such pair. The contract claims no more than that the answer
/// is read off the narrow phase: it is the entry of `contact_pairs` for
/// `(a, b)`. Which pairs a step leaves in the narrow phase is not claimed.
#[verifier::external_body]
fn active_contact(narrow_phase: &NarrowPhase, a: u64, b: u64) -> (found: Option<bool>)
    ensures
        contact_pairs(*narrow_phase).contains_key((a, b)) ==> found == Some(
            contact_pairs(*narrow_phase)[(a, b)],
        ),
        !contact_pairs(*narrow_phase).contains_key((a, b)) ==> found.is_none(),
{
    let first: ColliderHandle = Entity::from_bits(a).handle();
    let second: ColliderHandle = Entity::from_bits(b).handle();
    narrow_phase.contact_pair(first, second).map(|pair| pair.has_any_active_contact)
}

/// Whether an answer of the narrow phase means contact: a pair that has an
/// active contact does, a pair without one and a missing pair do not.
pub fn is_contact(found: Option<bool>) -> (touching: bool)
    ensures
        touching == (found == Some(true)),
{
    match found {
        Some(active) => active,
        None => false,
    }
}

/// Asks the narrow phase what the alarm with handle `alarm` touches: for
/// each of the four bodies, whether the narrow phase holds a contact pair
/// of that body with the alarm that has an active contact.
pub fn contact_of(narrow_phase: &NarrowPhase, bodies: &Bodies, alarm: u64) -> (contact: Contact)
    ensures
        contact == contact_spec(*narrow_phase, *bodies, alarm),
{
    let reflector: bool = is_contact(active_contact(narrow_phase, bodies.reflector, alarm));
    let player: bool = is_contact(active_contact(narrow_phase, bodies.player, alarm));
    let sun: bool = is_contact(active_contact(narrow_phase, bodies.sun, alarm));
    let moon: bool = is_contact(active_contact(narrow_phase, bodies.moon, alarm));
    Contact { reflector, player, sun, moon }
}

/// Asks the narrow phase for the contacts of every alarm, in the alarms'
/// order: one for each alarm, each as `contact_of` gives it.
pub fn contacts_of(narrow_phase: &NarrowPhase, bodies: &Bodies, alarms: &Vec<Alarm>) -> (contacts:
    Vec<Contact>)
    ensures
        contacts@.len() == alarms@.len(),
        contacts@ == contacts_spec(*narrow_phase, *bodies, alarms@),
{
    let mut contacts: Vec<Contact> = Vec::new();
    let mut i: usize = 0;
    while i < alarms.len()
        invariant
            i <= alarms.len(),
            contacts@.len() == i,
            forall|j: int|
                0 <= j < i ==> #[trigger] contacts@[j] == contact_spec(
                    *narrow_phase,
                    *bodies,
                    alarms@[j].id,
                ),
        decreases alarms.len() - i,
    {
        contacts.push(contact_of(narrow_phase, bodies, alarms[i].id));
        i = i + 1;
    }
    assert(contacts@ =~= contacts_spec(*narrow_phase, *bodies, alarms@));
    contacts
}

} // verus!
