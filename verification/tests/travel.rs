use chrono::NaiveDate;
use cio::dates::UtcInstant;
use cio::travel::{passenger_emails, Booking, NewBooking, TripBooking, TripPassenger};

fn trip(preferred: &str, discount: &str) -> TripBooking {
    TripBooking {
        uuid: "uuid-1".to_string(),
        created: UtcInstant { seconds: 100, nanoseconds: 5 },
        last_modified: UtcInstant { seconds: 200, nanoseconds: 0 },
        cancelled_at: None,
        booking_type: "FLIGHT".to_string(),
        booking_status: "BOOKED".to_string(),
        vendor: "United".to_string(),
        flight: "UA 1".to_string(),
        cabin: "Economy".to_string(),
        preferred_vendor: preferred.to_string(),
        corporate_discount_used: discount.to_string(),
        start_date: NaiveDate::from_ymd_opt(2021, 3, 4).unwrap(),
        end_date: Some(NaiveDate::from_ymd_opt(2021, 3, 9).unwrap()),
        passengers: vec![
            TripPassenger { email: "a@oxide.computer".to_string() },
            TripPassenger { email: "b@oxide.computer".to_string() },
        ],
        booker_email: "boss@oxide.computer".to_string(),
        origin_airport_code: "SFO".to_string(),
        destination_airport_code: "BOS".to_string(),
        trip_length: "5".to_string(),
        trip_description: "conference".to_string(),
        currency: "USD".to_string(),
        optimal_price_bits: 123.5f32.to_bits(),
        grand_total_bits: 150.25f32.to_bits(),
        purpose: "work".to_string(),
        reason: "talk".to_string(),
        booking_id: "CONF123".to_string(),
    }
}

#[test]
fn booking_record_from_trip() {
    let b = NewBooking::from_trip_booking(trip("Y", "N"), 1);
    assert_eq!(b.booking_id, "uuid-1");
    assert_eq!(b.confirmation_id, "CONF123");
    assert!(b.is_preferred_vendor);
    assert!(!b.used_corporate_discount);
    assert_eq!(b.passengers, vec!["a@oxide.computer".to_string(), "b@oxide.computer".to_string()]);
    assert_eq!(b.booker, "boss@oxide.computer");
    assert_eq!(b.origin, "SFO");
    assert_eq!(b.destination, "BOS");
    assert_eq!(b.type_, "FLIGHT");
    assert_eq!(b.status, "BOOKED");
    assert_eq!(b.length, "5");
    assert_eq!(b.description, "conference");
    assert_eq!(f32::from_bits(b.optimal_price), 123.5f32);
    assert_eq!(f32::from_bits(b.grand_total), 150.25f32);
    assert_eq!(b.created_at, UtcInstant { seconds: 100, nanoseconds: 5 });
    assert_eq!(b.start_date, NaiveDate::from_ymd_opt(2021, 3, 4).unwrap());
    assert_eq!(b.end_date, Some(NaiveDate::from_ymd_opt(2021, 3, 9).unwrap()));
    assert_eq!(b.cio_company_id, 1);
}

#[test]
fn flags_are_true_only_for_exact_y() {
    let b = NewBooking::from_trip_booking(trip("y", "Y"), 1);
    assert!(!b.is_preferred_vendor);
    assert!(b.used_corporate_discount);
    let b = NewBooking::from_trip_booking(trip("YES", ""), 1);
    assert!(!b.is_preferred_vendor);
    assert!(!b.used_corporate_discount);
}

#[test]
fn passengers_keep_order() {
    let p = vec![TripPassenger { email: "z".to_string() }, TripPassenger { email: "a".to_string() }];
    assert_eq!(passenger_emails(&p), vec!["z".to_string(), "a".to_string()]);
}

#[test]
fn booking_airtable_update_changes_nothing() {
    let make = |id: i32| {
        let n = NewBooking::from_trip_booking(trip("Y", "Y"), 1);
        Booking {
            id,
            booking_id: n.booking_id,
            created_at: n.created_at,
            last_modified_at: n.last_modified_at,
            cancelled_at: n.cancelled_at,
            type_: n.type_,
            status: n.status,
            vendor: n.vendor,
            flight: n.flight,
            cabin: n.cabin,
            is_preferred_vendor: n.is_preferred_vendor,
            used_corporate_discount: n.used_corporate_discount,
            start_date: n.start_date,
            end_date: n.end_date,
            passengers: n.passengers,
            booker: n.booker,
            origin: n.origin,
            destination: n.destination,
            length: n.length,
            description: n.description,
            currency: n.currency,
            optimal_price: n.optimal_price,
            grand_total: n.grand_total,
            purpose: n.purpose,
            reason: n.reason,
            confirmation_id: n.confirmation_id,
            cio_company_id: n.cio_company_id,
            airtable_record_id: "rec".to_string(),
        }
    };
    let mut b = make(1);
    b.update_airtable_record(make(2));
    assert_eq!(b, make(1));
}
