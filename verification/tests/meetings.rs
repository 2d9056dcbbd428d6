use cio::dates::UtcInstant;
use cio::meetings::{
    chat_log_text, drive_file_id, find_recording, is_company_calendar, meeting_attendees,
    meeting_file_urls, new_recorded_meeting, Attachment, Attendee, CalendarEvent,
    MeetingRecording, NewRecordedMeeting, RecordedMeeting, TranscriptStep, MAX_TRANSCRIPT_CHARS,
};

fn instant(seconds: i64) -> UtcInstant {
    UtcInstant { seconds, nanoseconds: 0 }
}

fn attachment(title: &str, mime_type: &str, file_url: &str) -> Attachment {
    Attachment { title: title.to_string(), mime_type: mime_type.to_string(), file_url: file_url.to_string() }
}

fn attendee(email: &str, resource: bool) -> Attendee {
    Attendee { email: email.to_string(), resource }
}

fn event(attachments: Vec<Attachment>) -> CalendarEvent {
    CalendarEvent {
        id: "evt1".to_string(),
        summary: "  Product Huddle ".to_string(),
        description: "\nweekly\n".to_string(),
        location: "Zoom".to_string(),
        html_link: "https://calendar/evt1".to_string(),
        recurring_event_id: "rec42".to_string(),
        start: Some(instant(1_600_000_000)),
        end: Some(instant(1_600_003_600)),
        attendees: vec![attendee("a@oxide.computer", false), attendee("room@resource", true), attendee("b@oxide.computer", false)],
        attachments,
    }
}

fn stored(transcript_id: &str, transcript: &str) -> RecordedMeeting {
    RecordedMeeting {
        id: 7,
        name: "Huddle".to_string(),
        description: String::new(),
        start_time: instant(1),
        end_time: instant(2),
        video: "v".to_string(),
        chat_log_link: String::new(),
        chat_log: String::new(),
        is_recurring: false,
        attendees: vec![],
        transcript: transcript.to_string(),
        transcript_id: transcript_id.to_string(),
        google_event_id: "evt1".to_string(),
        event_link: String::new(),
        location: String::new(),
        cio_company_id: 1,
        airtable_record_id: "rec".to_string(),
    }
}

#[test]
fn company_calendars_end_with_domain() {
    assert!(is_company_calendar("c_123@oxide.computer", "oxide.computer"));
    assert!(!is_company_calendar("someone@gmail.com", "oxide.computer"));
}

#[test]
fn attendees_skip_resources() {
    let a = vec![attendee("a@x", false), attendee("room", true), attendee("b@x", false)];
    assert_eq!(meeting_attendees(&a), vec!["a@x".to_string(), "b@x".to_string()]);
    assert_eq!(meeting_attendees(&vec![]), Vec::<String>::new());
}

#[test]
fn last_matching_attachment_wins() {
    let atts = vec![
        attachment("Huddle - Recording", "video/mp4", "v1"),
        attachment("Other - Recording", "video/mp4", "v2"),
        attachment("Huddle - Chat", "text/plain", "c1"),
        attachment("Huddle - Recording 2", "video/mp4", "v3"),
    ];
    let (video, chat) = meeting_file_urls(&atts, "Huddle");
    assert_eq!(video, "v3");
    assert_eq!(chat, "c1");
    let (video, chat) = meeting_file_urls(&atts, "Nothing");
    assert_eq!(video, "");
    assert_eq!(chat, "");
}

#[test]
fn events_without_attachments_or_video_hold_no_recording() {
    assert_eq!(find_recording(&event(vec![])), None);
    let only_chat = event(vec![attachment("  Product Huddle  chat", "text/plain", "c")]);
    assert_eq!(find_recording(&only_chat), None);
}

#[test]
fn recording_is_found_by_untrimmed_summary() {
    let e = event(vec![
        attachment("  Product Huddle - Recording", "video/mp4", "https://drive.google.com/open?id=VID"),
        attachment("  Product Huddle - Chat", "text/plain", "https://drive.google.com/file/d/CHAT/view?usp=drive_web"),
    ]);
    let rec = find_recording(&e).unwrap();
    assert_eq!(rec.video, "https://drive.google.com/open?id=VID");
    assert_eq!(rec.chat_log_link, "https://drive.google.com/file/d/CHAT/view?usp=drive_web");
    assert_eq!(rec.attendees, vec!["a@oxide.computer".to_string(), "b@oxide.computer".to_string()]);
}

#[test]
fn drive_ids_lose_prefixes_and_suffix() {
    assert_eq!(drive_file_id("https://drive.google.com/open?id=ABC"), "ABC");
    assert_eq!(drive_file_id("https://drive.google.com/file/d/XYZ/view?usp=drive_web"), "XYZ");
    assert_eq!(drive_file_id("plain"), "plain");
    assert_eq!(
        drive_file_id("https://drive.google.com/file/d/https://drive.google.com/open?id=Q"),
        "https://drive.google.com/open?id=Q"
    );
}

#[test]
fn chat_logs_are_decoded_and_trimmed() {
    assert_eq!(chat_log_text(b"  10:00 hello \n"), "10:00 hello");
    assert_eq!(chat_log_text("\u{a0}héllo".as_bytes()), "héllo");
    assert_eq!(chat_log_text(&[0xff, 0xfe, b'a']), "");
    assert_eq!(chat_log_text(b""), "");
}

#[test]
fn new_meeting_record_from_event() {
    let e = event(vec![]);
    let rec = MeetingRecording { video: "v".to_string(), chat_log_link: "c".to_string(), attendees: vec!["a".to_string()] };
    let m = new_recorded_meeting(e, rec, "log".to_string(), 3);
    assert_eq!(
        m,
        NewRecordedMeeting {
            name: "Product Huddle".to_string(),
            description: "weekly".to_string(),
            start_time: instant(1_600_000_000),
            end_time: instant(1_600_003_600),
            video: "v".to_string(),
            chat_log_link: "c".to_string(),
            chat_log: "log".to_string(),
            is_recurring: true,
            attendees: vec!["a".to_string()],
            transcript: String::new(),
            transcript_id: String::new(),
            google_event_id: "evt1".to_string(),
            event_link: "https://calendar/evt1".to_string(),
            location: "Zoom".to_string(),
            cio_company_id: 3,
        }
    );
}

#[test]
fn non_recurring_events_are_not_flagged() {
    let mut e = event(vec![]);
    e.recurring_event_id = String::new();
    let rec = MeetingRecording { video: "v".to_string(), chat_log_link: String::new(), attendees: vec![] };
    assert!(!new_recorded_meeting(e, rec, String::new(), 1).is_recurring);
}

#[test]
fn stored_transcript_takes_precedence_over_airtable() {
    let e = event(vec![]);
    let rec = MeetingRecording { video: "v".to_string(), chat_log_link: String::new(), attendees: vec![] };
    let fresh = new_recorded_meeting(e, rec, String::new(), 1);

    let mut m = fresh.clone();
    m.adopt_stored_transcript(&stored("job1", ""), Some(&stored("job2", "from airtable")));
    assert_eq!(m.transcript_id, "job1");
    assert_eq!(m.transcript, "from airtable");

    let mut m = fresh.clone();
    m.adopt_stored_transcript(&stored("", "db text"), None);
    assert_eq!(m.transcript_id, "");
    assert_eq!(m.transcript, "db text");
    assert_eq!(m.name, fresh.name);
}

#[test]
fn airtable_update_takes_non_empty_fields_and_truncates() {
    let mut m = stored("old-id", "old transcript");
    m.update_airtable_record(stored("", ""));
    assert_eq!(m.transcript_id, "old-id");
    assert_eq!(m.transcript, "old transcript");

    m.update_airtable_record(stored("new-id", "new transcript"));
    assert_eq!(m.transcript_id, "new-id");
    assert_eq!(m.transcript, "new transcript");

    let long = "é".repeat(MAX_TRANSCRIPT_CHARS + 5);
    m.update_airtable_record(stored("", &long));
    assert_eq!(m.transcript.chars().count(), MAX_TRANSCRIPT_CHARS);
    assert_eq!(m.transcript_id, "new-id");
    assert_eq!(m.id, 7);
}

#[test]
fn airtable_update_twice_is_like_once() {
    let incoming = stored("id2", "text two");
    let mut once = stored("id1", "text one");
    once.update_airtable_record(incoming.clone());
    let mut twice = once.clone();
    twice.update_airtable_record(incoming);
    assert_eq!(once, twice);
}

#[test]
fn transcript_steps() {
    assert_eq!(stored("", "").transcript_step(false), TranscriptStep::Nothing);
    assert_eq!(stored("", "").transcript_step(true), TranscriptStep::CreateJob);
    assert_eq!(stored("job", "").transcript_step(true), TranscriptStep::FetchTranscript);
    assert_eq!(stored("job", "text").transcript_step(true), TranscriptStep::Nothing);
    assert_eq!(stored("", "text").transcript_step(true), TranscriptStep::Nothing);
}

#[test]
fn a_job_is_posted_once_and_a_transcript_settles_it() {
    let mut m = stored("", "");
    assert_eq!(m.transcript_step(true), TranscriptStep::CreateJob);
    m.record_transcription_job("job-9");
    assert_eq!(m.transcript_id, "job-9");
    assert_eq!(m.transcript_step(true), TranscriptStep::FetchTranscript);
    m.record_transcript("  the words \n");
    assert_eq!(m.transcript, "the words");
    assert_eq!(m.transcript_step(true), TranscriptStep::Nothing);
}
