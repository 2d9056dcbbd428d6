use cio::dates::UtcInstant;
use cio::meeting_sync::{EventAction, EventInput, EventSync};
use cio::meetings::{Attachment, Attendee, CalendarEvent, RecordedMeeting};

fn instant(seconds: i64) -> UtcInstant {
    UtcInstant { seconds, nanoseconds: 0 }
}

fn attachment(title: &str, mime_type: &str, file_url: &str) -> Attachment {
    Attachment { title: title.to_string(), mime_type: mime_type.to_string(), file_url: file_url.to_string() }
}

fn sync_event(attachments: Vec<Attachment>) -> CalendarEvent {
    CalendarEvent {
        id: "evt9".to_string(),
        summary: "Standup".to_string(),
        description: "daily".to_string(),
        location: "Zoom".to_string(),
        html_link: "https://calendar/evt9".to_string(),
        recurring_event_id: String::new(),
        start: Some(instant(10)),
        end: Some(instant(20)),
        attendees: vec![Attendee { email: "a@oxide.computer".to_string(), resource: false }],
        attachments,
    }
}

fn row(transcript_id: &str, transcript: &str) -> RecordedMeeting {
    RecordedMeeting {
        id: 1,
        name: "Standup".to_string(),
        description: "daily".to_string(),
        start_time: instant(10),
        end_time: instant(20),
        video: "v".to_string(),
        chat_log_link: String::new(),
        chat_log: String::new(),
        is_recurring: false,
        attendees: vec![],
        transcript: transcript.to_string(),
        transcript_id: transcript_id.to_string(),
        google_event_id: "evt9".to_string(),
        event_link: String::new(),
        location: String::new(),
        cio_company_id: 5,
        airtable_record_id: String::new(),
    }
}

fn step(state: EventSync, input: EventInput) -> (EventSync, EventAction) {
    assert!(state.accepts(&input));
    state.step(input)
}

#[test]
fn events_without_a_recording_finish_at_once() {
    let (state, action) = step(EventSync::Start { company_id: 5 }, EventInput::Event(sync_event(vec![])));
    assert!(matches!(state, EventSync::Done));
    assert!(matches!(action, EventAction::Finish));
}

#[test]
fn full_protocol_with_chat_log_and_new_job() {
    let e = sync_event(vec![
        attachment("Standup rec", "video/mp4", "https://drive.google.com/open?id=VID"),
        attachment("Standup chat", "text/plain", "https://drive.google.com/file/d/CHAT/view?usp=drive_web"),
    ]);
    let (s, a) = step(EventSync::Start { company_id: 5 }, EventInput::Event(e));
    assert!(matches!(a, EventAction::Download { ref file_id } if file_id == "CHAT"));
    let (s, a) = step(s, EventInput::Downloaded(b"  hi there \n".to_vec()));
    assert!(matches!(a, EventAction::Download { ref file_id } if file_id == "VID"));
    let (s, a) = step(s, EventInput::Downloaded(vec![1, 2, 3]));
    assert!(matches!(a, EventAction::LookUpStored { ref google_event_id } if google_event_id == "evt9"));
    let (s, a) = step(s, EventInput::Stored(None));
    let meeting = match a {
        EventAction::Upsert { meeting } => meeting,
        other => panic!("unexpected {:?}", other),
    };
    assert_eq!(meeting.chat_log, "hi there");
    assert_eq!(meeting.video, "https://drive.google.com/open?id=VID");
    assert_eq!(meeting.cio_company_id, 5);
    assert_eq!(meeting.transcript, "");
    let (s, a) = step(s, EventInput::Upserted(row("", "")));
    assert!(matches!(a, EventAction::PostVideo));
    let (s, a) = step(s, EventInput::JobPosted("job-1".to_string()));
    match a {
        EventAction::Update { meeting } => assert_eq!(meeting.transcript_id, "job-1"),
        other => panic!("unexpected {:?}", other),
    }
    let (s, a) = step(s, EventInput::Updated);
    assert!(matches!(s, EventSync::Done));
    assert!(matches!(a, EventAction::Finish));
}

#[test]
fn no_chat_link_goes_straight_to_the_video_and_stored_rows_are_adopted() {
    let e = sync_event(vec![attachment("Standup rec", "video/mp4", "https://drive.google.com/open?id=VID")]);
    let (s, a) = step(EventSync::Start { company_id: 5 }, EventInput::Event(e));
    assert!(matches!(a, EventAction::Download { ref file_id } if file_id == "VID"));
    let (s, _) = step(s, EventInput::Downloaded(vec![]));
    let (s, a) = step(s, EventInput::Stored(Some(row("job-7", ""))));
    assert!(matches!(a, EventAction::FetchAirtable { ref stored } if stored.transcript_id == "job-7"));
    let (s, a) = step(s, EventInput::Airtable(Some(row("other", "airtable text"))));
    match a {
        EventAction::Upsert { meeting } => {
            assert_eq!(meeting.transcript_id, "job-7");
            assert_eq!(meeting.transcript, "airtable text");
        }
        other => panic!("unexpected {:?}", other),
    }
    // The video download was empty: nothing is posted or fetched.
    let (s, a) = step(s, EventInput::Upserted(row("job-7", "")));
    assert!(matches!(s, EventSync::Done));
    assert!(matches!(a, EventAction::Finish));
}

#[test]
fn a_posted_job_is_fetched_and_kept_trimmed() {
    let e = sync_event(vec![attachment("Standup rec", "video/mp4", "VID")]);
    let (s, _) = step(EventSync::Start { company_id: 5 }, EventInput::Event(e));
    let (s, _) = step(s, EventInput::Downloaded(vec![9]));
    let (s, _) = step(s, EventInput::Stored(None));
    let (s, a) = step(s, EventInput::Upserted(row("job-3", "")));
    assert!(matches!(a, EventAction::FetchTranscript { ref transcript_id } if transcript_id == "job-3"));
    let (_, a) = step(s, EventInput::TranscriptFetched(" words ".to_string()));
    match a {
        EventAction::Update { meeting } => assert_eq!(meeting.transcript, "words"),
        other => panic!("unexpected {:?}", other),
    }
}

#[test]
fn states_accept_only_their_input() {
    assert!(!EventSync::Start { company_id: 1 }.accepts(&EventInput::Updated));
    assert!(!EventSync::Done.accepts(&EventInput::Updated));
    let mut e = sync_event(vec![attachment("Standup rec", "video/mp4", "VID")]);
    e.start = None;
    let (s, _) = step(EventSync::Start { company_id: 5 }, EventInput::Event(e));
    assert!(!s.accepts(&EventInput::Downloaded(vec![])));
}
