//! Record keeping for a company's operations data: recorded meetings pulled
//! from calendars, travel bookings, and the generated nginx / terraform
//! configuration for short URLs.
//!
//! The decisions the sync jobs make about each calendar event, booking and
//! short URL live here, as functions from plain values to plain values with
//! exact contracts; the caller drives the network and database round trips
//! and calls them in turn.

pub mod dates;
pub mod text;
pub mod meetings;
pub mod meeting_sync;
pub mod travel;
pub mod templates;
