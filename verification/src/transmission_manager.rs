//! Contact selection and the transmission-attempt decision.
//!
//! The driver draws random contacts and Bernoulli samples; the functions
//! here make the decisions those draws feed.

use vstd::prelude::*;

use crate::infection_status::Status;
use crate::person::PersonId;
use crate::ratio::Ratio;
use crate::ratio::rat_one;

verus! {

/// The outcome of one contact-selection draw.
pub enum ContactSelection {
    /// No contact is available (the population has at most one person, or
    /// the draw produced nobody).
    NoContact,
    /// The draw picked the infector themselves; draw again.
    Resample,
    /// The selected contact.
    Contact(PersonId),
}

/// Classifies one draw of a potential contact for `person_id`: with at
/// most one person in the population there is nobody to contact; a draw of
/// the infector themselves must be repeated, so the same id is never
/// returned as its own contact; any other drawn person is the contact.
pub fn next_contact_step(total_people: usize, person_id: PersonId, sampled: Option<PersonId>) -> (r:
    ContactSelection)
    ensures
        total_people <= 1 ==> r is NoContact,
        total_people > 1 ==> match sampled {
            Some(candidate) => {
                if candidate == person_id {
                    r is Resample
                } else {
                    r == ContactSelection::Contact(candidate)
                }
            },
            None => r is NoContact,
        },
{
    if total_people <= 1 {
        return ContactSelection::NoContact;
    }
    match sampled {
        Some(candidate) => {
            if candidate.index() == person_id.index() {
                ContactSelection::Resample
            } else {
                ContactSelection::Contact(candidate)
            }
        },
        None => ContactSelection::NoContact,
    }
}

/// Whether a transmission attempt on the selected contact succeeds: the
/// contact must still be susceptible, and the caller's Bernoulli draw
/// (made with the relative-transmission probability) must have accepted.
pub fn should_transmit(contact_status: &Status, accept_draw: bool) -> (r: bool)
    ensures
        r == (contact_status is Susceptible && accept_draw),
{
    contact_status.is_susceptible() && accept_draw
}

/// The aggregate of modifiers that impact transmission between the two
/// people; none are modeled, so the relative transmission is one.
pub fn get_relative_total_transmission(_infector: PersonId, _infectee: PersonId) -> (r: Ratio)
    ensures
        r@ == rat_one(),
        r.wf(),
{
    Ratio::from_int(1)
}

} // verus!
