//! Travel bookings: the record kept for each booking made through the
//! travel agency's API.

use vstd::prelude::*;
use crate::dates::UtcInstant;
use crate::text::str_eq;

verus! {

/// The answer the travel agency's API gives for "yes" in its flag fields.
pub const YES_FLAG: &'static str = "Y";

/// A traveller on a booking.
#[derive(Clone, Debug, PartialEq)]
pub struct TripPassenger {
    pub email: String,
}

/// A booking as the travel agency's API reports it, with what the sync
/// reads of it. Prices are the bit patterns of the `f32` values that the
/// record keeps (`f32::to_bits`).
#[derive(Debug, PartialEq)]
pub struct TripBooking {
    pub uuid: String,
    pub created: UtcInstant,
    pub last_modified: UtcInstant,
    pub cancelled_at: Option<UtcInstant>,
    pub booking_type: String,
    pub booking_status: String,
    pub vendor: String,
    pub flight: String,
    pub cabin: String,
    /// `"Y"` where the vendor is a preferred one.
    pub preferred_vendor: String,
    /// `"Y"` where a corporate discount was used.
    pub corporate_discount_used: String,
    pub start_date: chrono::NaiveDate,
    pub end_date: Option<chrono::NaiveDate>,
    pub passengers: Vec<TripPassenger>,
    pub booker_email: String,
    pub origin_airport_code: String,
    pub destination_airport_code: String,
    pub trip_length: String,
    pub trip_description: String,
    pub currency: String,
    pub optimal_price_bits: u32,
    pub grand_total_bits: u32,
    pub purpose: String,
    pub reason: String,
    pub booking_id: String,
}

/// A booking, as it is written to the database.
/// `optimal_price` and `grand_total` are `f32` bit patterns.
#[derive(Debug, PartialEq)]
pub struct NewBooking {
    pub booking_id: String,
    pub created_at: UtcInstant,
    pub last_modified_at: UtcInstant,
    pub cancelled_at: Option<UtcInstant>,
    pub type_: String,
    pub status: String,
    pub vendor: String,
    pub flight: String,
    pub cabin: String,
    pub is_preferred_vendor: bool,
    pub used_corporate_discount: bool,
    pub start_date: chrono::NaiveDate,
    pub end_date: Option<chrono::NaiveDate>,
    pub passengers: Vec<String>,
    pub booker: String,
    pub origin: String,
    pub destination: String,
    pub length: String,
    pub description: String,
    pub currency: String,
    pub optimal_price: u32,
    pub grand_total: u32,
    pub purpose: String,
    pub reason: String,
    pub confirmation_id: String,
    /// The CIO company ID.
    pub cio_company_id: i32,
}

/// A booking as the database holds it: the fields of [`NewBooking`] with
/// the row id and the Airtable record id.
#[derive(Debug, PartialEq)]
pub struct Booking {
    pub id: i32,
    pub booking_id: String,
    pub created_at: UtcInstant,
    pub last_modified_at: UtcInstant,
    pub cancelled_at: Option<UtcInstant>,
    pub type_: String,
    pub status: String,
    pub vendor: String,
    pub flight: String,
    pub cabin: String,
    pub is_preferred_vendor: bool,
    pub used_corporate_discount: bool,
    pub start_date: chrono::NaiveDate,
    pub end_date: Option<chrono::NaiveDate>,
    pub passengers: Vec<String>,
    pub booker: String,
    pub origin: String,
    pub destination: String,
    pub length: String,
    pub description: String,
    pub currency: String,
    pub optimal_price: u32,
    pub grand_total: u32,
    pub purpose: String,
    pub reason: String,
    pub confirmation_id: String,
    /// The CIO company ID.
    pub cio_company_id: i32,
    pub airtable_record_id: String,
}

impl Booking {
    /// Airtable holds nothing that the database row does not: the row is
    /// left as it is.
    pub fn update_airtable_record(&mut self, _record: Booking)
        ensures
            *final(self) == *old(self),
    {
    }
}

/// The emails of a booking's passengers, in order.
pub open spec fn spec_passenger_emails(passengers: Seq<TripPassenger>) -> Seq<Seq<char>> {
    passengers.map_values(|p: TripPassenger| p.email@)
}

/// The emails of a booking's passengers, in order.
pub fn passenger_emails(passengers: &Vec<TripPassenger>) -> (r: Vec<String>)
    ensures
        r@.map_values(|e: String| e@) == spec_passenger_emails(passengers@),
{
    let mut r: Vec<String> = Vec::new();
    let n = passengers.len();
    for i in 0..n
        invariant
            n == passengers@.len(),
            r@.map_values(|e: String| e@) == spec_passenger_emails(passengers@.take(i as int)),
    {
        let ghost before = r@;
        r.push(passengers[i].email.clone());
        assert(r@.map_values(|e: String| e@) =~= before.map_values(|e: String| e@).push(
            passengers@[i as int].email@,
        ));
        assert(spec_passenger_emails(passengers@.take(i + 1)) =~= spec_passenger_emails(
            passengers@.take(i as int),
        ).push(passengers@[i as int].email@));
    }
    assert(passengers@.take(n as int) =~= passengers@);
    r
}

impl NewBooking {
    /// The record of a booking: its fields carried over, the passengers by
    /// email, the two flags true exactly where the API answered `"Y"`, and
    /// the API's booking id kept as the confirmation id.
    pub fn from_trip_booking(booking: TripBooking, company_id: i32) -> (r: NewBooking)
        ensures
            r.booking_id == booking.uuid,
            r.created_at == booking.created,
            r.last_modified_at == booking.last_modified,
            r.cancelled_at == booking.cancelled_at,
            r.type_ == booking.booking_type,
            r.status == booking.booking_status,
            r.vendor == booking.vendor,
            r.flight == booking.flight,
            r.cabin == booking.cabin,
            r.is_preferred_vendor == (booking.preferred_vendor@ == YES_FLAG@),
            r.used_corporate_discount == (booking.corporate_discount_used@ == YES_FLAG@),
            r.start_date == booking.start_date,
            r.end_date == booking.end_date,
            r.passengers@.map_values(|e: String| e@) == spec_passenger_emails(booking.passengers@),
            r.booker == booking.booker_email,
            r.origin == booking.origin_airport_code,
            r.destination == booking.destination_airport_code,
            r.length == booking.trip_length,
            r.description == booking.trip_description,
            r.currency == booking.currency,
            r.optimal_price == booking.optimal_price_bits,
            r.grand_total == booking.grand_total_bits,
            r.purpose == booking.purpose,
            r.reason == booking.reason,
            r.confirmation_id == booking.booking_id,
            r.cio_company_id == company_id,
    {
        let passengers = passenger_emails(&booking.passengers);
        let is_preferred_vendor = str_eq(booking.preferred_vendor.as_str(), YES_FLAG);
        let used_corporate_discount = str_eq(booking.corporate_discount_used.as_str(), YES_FLAG);
        NewBooking {
            booking_id: booking.uuid,
            created_at: booking.created,
            last_modified_at: booking.last_modified,
            cancelled_at: booking.cancelled_at,
            type_: booking.booking_type,
            status: booking.booking_status,
            vendor: booking.vendor,
            flight: booking.flight,
            cabin: booking.cabin,
            is_preferred_vendor,
            used_corporate_discount,
            start_date: booking.start_date,
            end_date: booking.end_date,
            passengers,
            booker: booking.booker_email,
            origin: booking.origin_airport_code,
            destination: booking.destination_airport_code,
            length: booking.trip_length,
            description: booking.trip_description,
            currency: booking.currency,
            optimal_price: booking.optimal_price_bits,
            grand_total: booking.grand_total_bits,
            purpose: booking.purpose,
            reason: booking.reason,
            confirmation_id: booking.booking_id,
            cio_company_id: company_id,
        }
    }
}


/// The passenger list of a record holds one email per passenger of the
/// booking, in order.
pub proof fn law_passengers_one_email_each(passengers: Seq<TripPassenger>)
    ensures
        spec_passenger_emails(passengers).len() == passengers.len(),
        forall|i: int|
            0 <= i < passengers.len() ==> #[trigger] spec_passenger_emails(passengers)[i]
                == passengers[i].email@,
{
}

/// A flag of the record is true exactly where the API answered `"Y"`.
pub proof fn law_flags_are_exactly_yes(answer: Seq<char>)
    ensures
        (answer == YES_FLAG@) <==> (answer.len() == 1 && answer[0] == 'Y'),
{
    reveal_strlit("Y");
    if answer.len() == 1 && answer[0] == 'Y' {
        assert(answer =~= YES_FLAG@);
    }
}

} // verus!
