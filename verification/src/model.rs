use vstd::prelude::*;

verus! {

/// One bookable time window of a center, tied to a scheduling agenda.
pub struct SlotResponse {
    pub agenda_id: u32,
    pub start_date: String,
    pub end_date: String,
}

/// A calendar date on which a center has zero or more open slots.
pub struct AvailabilityResponse {
    pub date: String,
    pub slots: Vec<SlotResponse>,
}

/// The center record carried inside a detail payload.
pub struct CenterResponse {
    pub address: String,
    pub city: String,
    pub name_with_title: String,
    pub zipcode: String,
    pub url: String,
}

/// A decoded detail payload: the availabilities and the center they belong to.
pub struct DetailResponse {
    pub availabilities: Vec<AvailabilityResponse>,
    pub search_result: CenterResponse,
}

/// Mathematical model of a slot.
pub ghost struct SpecSlot {
    pub agenda_id: u32,
    pub start_date: Seq<char>,
    pub end_date: Seq<char>,
}

/// Mathematical model of an availability.
pub ghost struct SpecAvailability {
    pub date: Seq<char>,
    pub slots: Seq<SpecSlot>,
}

/// Mathematical model of a center record.
pub ghost struct SpecCenter {
    pub address: Seq<char>,
    pub city: Seq<char>,
    pub name_with_title: Seq<char>,
    pub zipcode: Seq<char>,
    pub url: Seq<char>,
}

/// Mathematical model of a detail payload.
pub ghost struct SpecDetail {
    pub availabilities: Seq<SpecAvailability>,
    pub search_result: SpecCenter,
}

impl View for SlotResponse {
    type V = SpecSlot;

    open spec fn view(&self) -> SpecSlot {
        SpecSlot {
            agenda_id: self.agenda_id,
            start_date: self.start_date@,
            end_date: self.end_date@,
        }
    }
}

/// The models of a sequence of slots.
pub open spec fn slots_view(slots: Seq<SlotResponse>) -> Seq<SpecSlot> {
    slots.map_values(|s: SlotResponse| s@)
}

impl View for AvailabilityResponse {
    type V = SpecAvailability;

    open spec fn view(&self) -> SpecAvailability {
        SpecAvailability { date: self.date@, slots: slots_view(self.slots@) }
    }
}

/// The models of a sequence of availabilities.
pub open spec fn avails_view(avails: Seq<AvailabilityResponse>) -> Seq<SpecAvailability> {
    avails.map_values(|a: AvailabilityResponse| a@)
}

impl View for CenterResponse {
    type V = SpecCenter;

    open spec fn view(&self) -> SpecCenter {
        SpecCenter {
            address: self.address@,
            city: self.city@,
            name_with_title: self.name_with_title@,
            zipcode: self.zipcode@,
            url: self.url@,
        }
    }
}

impl View for DetailResponse {
    type V = SpecDetail;

    open spec fn view(&self) -> SpecDetail {
        SpecDetail {
            availabilities: avails_view(self.availabilities@),
            search_result: self.search_result@,
        }
    }
}

/// The payload could not be read as a detail record: either it is not
/// well-formed JSON, or a required field is missing or of the wrong type.
#[derive(PartialEq, Eq, Structural, Clone, Copy, Debug)]
pub enum DecodeError {
    Malformed,
}

} // verus!
