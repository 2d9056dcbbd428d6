//! The sync of one calendar event, as a step function.
//!
//! For each past event of a company calendar the sync goes through the
//! same protocol: skip the event unless it holds a recording; download the
//! chat log where there is a link to one; download the video; build the
//! record; look up the stored row of the meeting and, where there is one,
//! take its transcript (filling gaps from its Airtable record); write the
//! record; then post the video for transcription, or fetch the finished
//! transcript, and write the row back. The caller performs each action that
//! [`EventSync::step`] returns and hands back what came of it.

use vstd::prelude::*;
use vstd::utf8::*;
use crate::meetings::{
    chat_log_text, drive_file_id, find_recording, new_recorded_meeting, spec_attendee_emails,
    spec_drive_file_id, spec_has_recording, spec_is_new_meeting, spec_meeting_file_url,
    spec_stored_value, spec_transcript_step, spec_utf8_text, CalendarEvent, MeetingRecording,
    NewRecordedMeeting, RecordedMeeting, TranscriptStep, CHAT_LOG_MIME_TYPE, VIDEO_MIME_TYPE,
};
use crate::text::spec_trim;

verus! {

/// Where the sync of one calendar event stands.
#[derive(Debug)]
pub enum EventSync {
    /// The event is yet to be looked at.
    Start { company_id: i32 },
    /// The chat log is being downloaded.
    AwaitChatLog { company_id: i32, event: CalendarEvent, recording: MeetingRecording },
    /// The video is being downloaded.
    AwaitVideo {
        company_id: i32,
        event: CalendarEvent,
        recording: MeetingRecording,
        chat_log: String,
    },
    /// The stored row of the meeting is being looked up.
    AwaitStored { meeting: NewRecordedMeeting, have_video: bool },
    /// The Airtable record of the stored row is being fetched.
    AwaitAirtable { meeting: NewRecordedMeeting, have_video: bool },
    /// The record is being written.
    AwaitUpsert { have_video: bool },
    /// The video is being posted for transcription.
    AwaitJob { stored: RecordedMeeting },
    /// The transcript is being fetched.
    AwaitTranscript { stored: RecordedMeeting },
    /// The row is being written back.
    AwaitUpdate,
    /// Nothing more is done for this event.
    Done,
}

/// What came of the last action.
#[derive(Debug)]
pub enum EventInput {
    /// The event to sync (at the start).
    Event(CalendarEvent),
    /// The bytes of a downloaded file; empty where the download failed.
    Downloaded(Vec<u8>),
    /// The stored row of the meeting, if there is one.
    Stored(Option<RecordedMeeting>),
    /// The Airtable record of the stored row, if there is one.
    Airtable(Option<RecordedMeeting>),
    /// The row as written.
    Upserted(RecordedMeeting),
    /// The id of the transcription job posted.
    JobPosted(String),
    /// The fetched transcript; empty where the fetch failed.
    TranscriptFetched(String),
    /// The row was written back.
    Updated,
}

/// What to do next.
#[derive(Debug)]
pub enum EventAction {
    /// Download the Google Drive file with this id.
    Download { file_id: String },
    /// Look up the stored row of the meeting of this calendar event.
    LookUpStored { google_event_id: String },
    /// Fetch the Airtable record of this stored row.
    FetchAirtable { stored: RecordedMeeting },
    /// Write this record, keyed by its calendar event.
    Upsert { meeting: NewRecordedMeeting },
    /// Post the downloaded video for transcription.
    PostVideo,
    /// Fetch the transcript of the job with this id.
    FetchTranscript { transcript_id: String },
    /// Write this row back.
    Update { meeting: RecordedMeeting },
    /// The event is done with.
    Finish,
}

/// The most steps that the sync can still take from a state.
pub open spec fn spec_steps_left(state: EventSync) -> nat {
    match state {
        EventSync::Start { .. } => 8,
        EventSync::AwaitChatLog { .. } => 7,
        EventSync::AwaitVideo { .. } => 6,
        EventSync::AwaitStored { .. } => 5,
        EventSync::AwaitAirtable { .. } => 4,
        EventSync::AwaitUpsert { .. } => 3,
        EventSync::AwaitJob { .. } => 2,
        EventSync::AwaitTranscript { .. } => 2,
        EventSync::AwaitUpdate => 1,
        EventSync::Done => 0,
    }
}

/// The input a state waits for; at the video download, the event must
/// have a start and an end time (the record cannot be built without them).
pub open spec fn spec_accepts(state: EventSync, input: EventInput) -> bool {
    match (state, input) {
        (EventSync::Start { .. }, EventInput::Event(_)) => true,
        (EventSync::AwaitChatLog { .. }, EventInput::Downloaded(_)) => true,
        (EventSync::AwaitVideo { event, .. }, EventInput::Downloaded(_)) => event.start is Some
            && event.end is Some,
        (EventSync::AwaitStored { .. }, EventInput::Stored(_)) => true,
        (EventSync::AwaitAirtable { .. }, EventInput::Airtable(_)) => true,
        (EventSync::AwaitUpsert { .. }, EventInput::Upserted(_)) => true,
        (EventSync::AwaitJob { .. }, EventInput::JobPosted(_)) => true,
        (EventSync::AwaitTranscript { .. }, EventInput::TranscriptFetched(_)) => true,
        (EventSync::AwaitUpdate, EventInput::Updated) => true,
        _ => false,
    }
}

/// `recording` is what `event` holds of a recording, as
/// [`find_recording`] finds it.
pub open spec fn spec_recording_of(recording: MeetingRecording, event: CalendarEvent) -> bool {
    &&& recording.video@ == spec_meeting_file_url(
        event.attachments@,
        VIDEO_MIME_TYPE@,
        event.summary@,
    )
    &&& recording.chat_log_link@ == spec_meeting_file_url(
        event.attachments@,
        CHAT_LOG_MIME_TYPE@,
        event.summary@,
    )
    &&& recording.attendees@.map_values(|e: String| e@) == spec_attendee_emails(event.attendees@)
}

/// The step from `state` on `input` gave `next` and `action`.
pub open spec fn spec_step(state: EventSync, input: EventInput, next: EventSync, action: EventAction) -> bool {
    match (state, input) {
        (EventSync::Start { company_id }, EventInput::Event(e)) => if !spec_has_recording(e) {
            next is Done && action is Finish
        } else if spec_meeting_file_url(e.attachments@, CHAT_LOG_MIME_TYPE@, e.summary@).len()
            == 0 {
            &&& next matches EventSync::AwaitVideo { company_id: c, event, recording, chat_log }
                && c == company_id && event == e && spec_recording_of(recording, e)
                && chat_log@.len() == 0
            &&& action matches EventAction::Download { file_id } && file_id@ == spec_drive_file_id(
                spec_meeting_file_url(e.attachments@, VIDEO_MIME_TYPE@, e.summary@),
            )
        } else {
            &&& next matches EventSync::AwaitChatLog { company_id: c, event, recording }
                && c == company_id && event == e && spec_recording_of(recording, e)
            &&& action matches EventAction::Download { file_id } && file_id@ == spec_drive_file_id(
                spec_meeting_file_url(e.attachments@, CHAT_LOG_MIME_TYPE@, e.summary@),
            )
        },
        (
            EventSync::AwaitChatLog { company_id, event, recording },
            EventInput::Downloaded(bytes),
        ) => {
            &&& next matches EventSync::AwaitVideo { company_id: c, event: e2, recording: r2, chat_log }
                && c == company_id && e2 == event && r2 == recording && chat_log@ == spec_trim(
                spec_utf8_text(bytes@),
            )
            &&& action matches EventAction::Download { file_id } && file_id@ == spec_drive_file_id(
                recording.video@,
            )
        },
        (
            EventSync::AwaitVideo { company_id, event, recording, chat_log },
            EventInput::Downloaded(bytes),
        ) => {
            &&& next matches EventSync::AwaitStored { meeting, have_video } && spec_is_new_meeting(
                meeting,
                event,
                recording,
                chat_log,
                company_id,
            ) && have_video == (bytes@.len() > 0)
            &&& action matches EventAction::LookUpStored { google_event_id } && google_event_id
                == event.id
        },
        (EventSync::AwaitStored { meeting, have_video }, EventInput::Stored(None)) => {
            &&& next == (EventSync::AwaitUpsert { have_video })
            &&& action == (EventAction::Upsert { meeting })
        },
        (EventSync::AwaitStored { meeting, have_video }, EventInput::Stored(Some(s))) => {
            &&& next matches EventSync::AwaitAirtable { meeting: m2, have_video: h2 } && h2
                == have_video && m2.transcript@ == s.transcript@ && m2.transcript_id@
                == s.transcript_id@ && m2 == (NewRecordedMeeting {
                transcript: m2.transcript,
                transcript_id: m2.transcript_id,
                ..meeting
            })
            &&& action == (EventAction::FetchAirtable { stored: s })
        },
        (EventSync::AwaitAirtable { meeting, have_video }, EventInput::Airtable(a)) => {
            &&& next == (EventSync::AwaitUpsert { have_video })
            &&& action matches EventAction::Upsert { meeting: m2 } && m2.transcript@
                == spec_stored_value(
                meeting.transcript@,
                match a {
                    Some(r) => Some(r.transcript@),
                    None => None,
                },
            ) && m2.transcript_id@ == spec_stored_value(
                meeting.transcript_id@,
                match a {
                    Some(r) => Some(r.transcript_id@),
                    None => None,
                },
            ) && m2 == (NewRecordedMeeting {
                transcript: m2.transcript,
                transcript_id: m2.transcript_id,
                ..meeting
            })
        },
        (EventSync::AwaitUpsert { have_video }, EventInput::Upserted(db)) => match spec_transcript_step(
            db.transcript_id@,
            db.transcript@,
            have_video,
        ) {
            TranscriptStep::CreateJob => {
                &&& next == (EventSync::AwaitJob { stored: db })
                &&& action is PostVideo
            },
            TranscriptStep::FetchTranscript => {
                &&& next == (EventSync::AwaitTranscript { stored: db })
                &&& action matches EventAction::FetchTranscript { transcript_id } && transcript_id
                    == db.transcript_id
            },
            TranscriptStep::Nothing => next is Done && action is Finish,
        },
        (EventSync::AwaitJob { stored }, EventInput::JobPosted(job_id)) => {
            &&& next is AwaitUpdate
            &&& action matches EventAction::Update { meeting } && meeting.transcript_id@ == job_id@
                && meeting == (RecordedMeeting { transcript_id: meeting.transcript_id, ..stored })
        },
        (EventSync::AwaitTranscript { stored }, EventInput::TranscriptFetched(fetched)) => {
            &&& next is AwaitUpdate
            &&& action matches EventAction::Update { meeting } && meeting.transcript@ == spec_trim(
                fetched@,
            ) && meeting == (RecordedMeeting { transcript: meeting.transcript, ..stored })
        },
        (EventSync::AwaitUpdate, EventInput::Updated) => next is Done && action is Finish,
        _ => false,
    }
}

impl EventSync {
    /// Whether this state waits for `input`.
    pub fn accepts(&self, input: &EventInput) -> (r: bool)
        ensures
            r == spec_accepts(*self, *input),
    {
        match (self, input) {
            (EventSync::Start { .. }, EventInput::Event(_)) => true,
            (EventSync::AwaitChatLog { .. }, EventInput::Downloaded(_)) => true,
            (EventSync::AwaitVideo { event, .. }, EventInput::Downloaded(_)) => event.start.is_some()
                && event.end.is_some(),
            (EventSync::AwaitStored { .. }, EventInput::Stored(_)) => true,
            (EventSync::AwaitAirtable { .. }, EventInput::Airtable(_)) => true,
            (EventSync::AwaitUpsert { .. }, EventInput::Upserted(_)) => true,
            (EventSync::AwaitJob { .. }, EventInput::JobPosted(_)) => true,
            (EventSync::AwaitTranscript { .. }, EventInput::TranscriptFetched(_)) => true,
            (EventSync::AwaitUpdate, EventInput::Updated) => true,
            _ => false,
        }
    }

    /// The next state and the action to perform, on the input this state
    /// waits for.
    pub fn step(self, input: EventInput) -> (r: (EventSync, EventAction))
        requires
            spec_accepts(self, input),
        ensures
            spec_step(self, input, r.0, r.1),
            spec_steps_left(r.0) < spec_steps_left(self),
    {
        match (self, input) {
            (EventSync::Start { company_id }, EventInput::Event(event)) => {
                match find_recording(&event) {
                    None => (EventSync::Done, EventAction::Finish),
                    Some(recording) => {
                        if recording.chat_log_link.as_str().is_empty() {
                            let file_id = String::from_str(drive_file_id(recording.video.as_str()));
                            (
                                EventSync::AwaitVideo {
                                    company_id,
                                    event,
                                    recording,
                                    chat_log: String::new(),
                                },
                                EventAction::Download { file_id },
                            )
                        } else {
                            let file_id = String::from_str(
                                drive_file_id(recording.chat_log_link.as_str()),
                            );
                            (
                                EventSync::AwaitChatLog { company_id, event, recording },
                                EventAction::Download { file_id },
                            )
                        }
                    },
                }
            },
            (
                EventSync::AwaitChatLog { company_id, event, recording },
                EventInput::Downloaded(bytes),
            ) => {
                let chat_log = chat_log_text(bytes.as_slice());
                let file_id = String::from_str(drive_file_id(recording.video.as_str()));
                (
                    EventSync::AwaitVideo { company_id, event, recording, chat_log },
                    EventAction::Download { file_id },
                )
            },
            (
                EventSync::AwaitVideo { company_id, event, recording, chat_log },
                EventInput::Downloaded(bytes),
            ) => {
                let have_video = bytes.len() > 0;
                let google_event_id = event.id.clone();
                let meeting = new_recorded_meeting(event, recording, chat_log, company_id);
                (
                    EventSync::AwaitStored { meeting, have_video },
                    EventAction::LookUpStored { google_event_id },
                )
            },
            (EventSync::AwaitStored { meeting, have_video }, EventInput::Stored(stored)) => {
                match stored {
                    None => (EventSync::AwaitUpsert { have_video }, EventAction::Upsert { meeting }),
                    Some(s) => {
                        let mut meeting = meeting;
                        meeting.adopt_stored_transcript(&s, None);
                        (
                            EventSync::AwaitAirtable { meeting, have_video },
                            EventAction::FetchAirtable { stored: s },
                        )
                    },
                }
            },
            (EventSync::AwaitAirtable { meeting, have_video }, EventInput::Airtable(airtable)) => {
                let mut meeting = meeting;
                if let Some(a) = &airtable {
                    meeting.fill_from_airtable(a);
                }
                (EventSync::AwaitUpsert { have_video }, EventAction::Upsert { meeting })
            },
            (EventSync::AwaitUpsert { have_video }, EventInput::Upserted(db)) => {
                match db.transcript_step(have_video) {
                    TranscriptStep::CreateJob => (
                        EventSync::AwaitJob { stored: db },
                        EventAction::PostVideo,
                    ),
                    TranscriptStep::FetchTranscript => {
                        let transcript_id = db.transcript_id.clone();
                        (
                            EventSync::AwaitTranscript { stored: db },
                            EventAction::FetchTranscript { transcript_id },
                        )
                    },
                    TranscriptStep::Nothing => (EventSync::Done, EventAction::Finish),
                }
            },
            (EventSync::AwaitJob { stored }, EventInput::JobPosted(job_id)) => {
                let mut meeting = stored;
                meeting.record_transcription_job(job_id.as_str());
                (EventSync::AwaitUpdate, EventAction::Update { meeting })
            },
            (EventSync::AwaitTranscript { stored }, EventInput::TranscriptFetched(fetched)) => {
                let mut meeting = stored;
                meeting.record_transcript(fetched.as_str());
                (EventSync::AwaitUpdate, EventAction::Update { meeting })
            },
            (EventSync::AwaitUpdate, EventInput::Updated) => (EventSync::Done, EventAction::Finish),
            (state, _) => {
                proof {
                    assert(false);
                }
                (state, EventAction::Finish)
            },
        }
    }
}


/// Once the record is written, what happens depends on the stored row
/// alone: with a transcript already there, or without the video, the event
/// is done; with the video and neither id nor transcript, the video is
/// posted; with the video and an id but no transcript, the transcript of
/// that job is fetched.
pub proof fn law_sync_after_upsert(
    have_video: bool,
    db: RecordedMeeting,
    next: EventSync,
    action: EventAction,
)
    requires
        spec_step(EventSync::AwaitUpsert { have_video }, EventInput::Upserted(db), next, action),
    ensures
        !have_video || db.transcript@.len() > 0 ==> next is Done && action is Finish,
        have_video && db.transcript_id@.len() == 0 && db.transcript@.len() == 0 ==> next == (
        EventSync::AwaitJob { stored: db }) && action is PostVideo,
        have_video && db.transcript_id@.len() > 0 && db.transcript@.len() == 0 ==> next == (
        EventSync::AwaitTranscript { stored: db }) && action == (EventAction::FetchTranscript {
            transcript_id: db.transcript_id,
        }),
{
}

/// An event without a recording is skipped at once; with one, the chat
/// log is downloaded first where there is a link to it, and the video
/// first where there is none.
pub proof fn law_sync_start(company_id: i32, e: CalendarEvent, next: EventSync, action: EventAction)
    requires
        spec_step(EventSync::Start { company_id }, EventInput::Event(e), next, action),
    ensures
        !spec_has_recording(e) ==> next is Done && action is Finish,
        spec_has_recording(e) && spec_meeting_file_url(
            e.attachments@,
            CHAT_LOG_MIME_TYPE@,
            e.summary@,
        ).len() > 0 ==> (next is AwaitChatLog && (action matches EventAction::Download {
            file_id,
        } && file_id@ == spec_drive_file_id(
            spec_meeting_file_url(e.attachments@, CHAT_LOG_MIME_TYPE@, e.summary@),
        ))),
        spec_has_recording(e) && spec_meeting_file_url(
            e.attachments@,
            CHAT_LOG_MIME_TYPE@,
            e.summary@,
        ).len() == 0 ==> (next is AwaitVideo && (action matches EventAction::Download {
            file_id,
        } && file_id@ == spec_drive_file_id(
            spec_meeting_file_url(e.attachments@, VIDEO_MIME_TYPE@, e.summary@),
        ))),
{
}

/// A posted job's id, or a fetched transcript without surrounding white
/// space, is written back with the rest of the stored row unchanged.
pub proof fn law_sync_keeps_job_and_transcript(
    stored: RecordedMeeting,
    input: EventInput,
    next: EventSync,
    action: EventAction,
)
    requires
        spec_step(EventSync::AwaitJob { stored }, input, next, action) || spec_step(
            EventSync::AwaitTranscript { stored },
            input,
            next,
            action,
        ),
    ensures
        next is AwaitUpdate,
        action matches EventAction::Update { meeting } && meeting.id == stored.id
            && meeting.google_event_id == stored.google_event_id && meeting.video == stored.video,
        input matches EventInput::JobPosted(job_id) ==> action matches EventAction::Update {
            meeting,
        } && meeting.transcript_id@ == job_id@ && meeting.transcript == stored.transcript,
        input matches EventInput::TranscriptFetched(fetched) ==> action matches EventAction::Update {
            meeting,
        } && meeting.transcript@ == spec_trim(fetched@) && meeting.transcript_id
            == stored.transcript_id,
{
}

/// A stored row hands its transcript and id to the fresh record before
/// Airtable is asked; without a stored row the record is written as built.
pub proof fn law_sync_adopts_stored_row(
    meeting: NewRecordedMeeting,
    have_video: bool,
    stored: Option<RecordedMeeting>,
    next: EventSync,
    action: EventAction,
)
    requires
        spec_step(
            EventSync::AwaitStored { meeting, have_video },
            EventInput::Stored(stored),
            next,
            action,
        ),
    ensures
        stored is None ==> action == (EventAction::Upsert { meeting }),
        stored matches Some(s) ==> (action == (EventAction::FetchAirtable { stored: s }) && (
        next matches EventSync::AwaitAirtable { meeting: m, .. } && m.transcript@ == s.transcript@
            && m.transcript_id@ == s.transcript_id@ && m.name == meeting.name)),
{
}


/// After the chat log download its text (decoded, without surrounding
/// white space, empty where the bytes are not UTF-8) is kept and the video
/// is downloaded next; after the video download the record is built and
/// its stored row looked up, and the video counts as there exactly where
/// the download gave some bytes.
pub proof fn law_sync_downloads(state: EventSync, bytes: Vec<u8>, next: EventSync, action: EventAction)
    requires
        spec_step(state, EventInput::Downloaded(bytes), next, action),
    ensures
        state matches EventSync::AwaitChatLog { recording, .. } ==> (next matches EventSync::AwaitVideo {
            chat_log,
            ..
        } && chat_log@ == spec_trim(spec_utf8_text(bytes@))) && (action matches EventAction::Download {
            file_id,
        } && file_id@ == spec_drive_file_id(recording.video@)),
        state matches EventSync::AwaitVideo { event, .. } ==> (next matches EventSync::AwaitStored {
            have_video,
            meeting,
        } && (have_video <==> bytes@.len() > 0) && meeting.google_event_id == event.id
            && meeting.transcript@.len() == 0) && action == (EventAction::LookUpStored {
            google_event_id: event.id,
        }),
{
}

/// The Airtable record fills only the gaps of the record, and the
/// record is written next; after the row is written back the event is done.
pub proof fn law_sync_airtable_and_update(
    state: EventSync,
    input: EventInput,
    next: EventSync,
    action: EventAction,
)
    requires
        spec_step(state, input, next, action),
    ensures
        state matches EventSync::AwaitAirtable { meeting, have_video } ==> next == (
        EventSync::AwaitUpsert { have_video }) && (action matches EventAction::Upsert { meeting: m }
            && (meeting.transcript@.len() > 0 ==> m.transcript@ == meeting.transcript@) && (
        meeting.transcript_id@.len() > 0 ==> m.transcript_id@ == meeting.transcript_id@) && (
        input matches EventInput::Airtable(None) ==> m.transcript@ == meeting.transcript@
            && m.transcript_id@ == meeting.transcript_id@) && (input matches EventInput::Airtable(
            Some(a),
        ) ==> (meeting.transcript@.len() == 0 ==> m.transcript@ == a.transcript@) && (
        meeting.transcript_id@.len() == 0 ==> m.transcript_id@ == a.transcript_id@))
            && m.name == meeting.name),
        state is AwaitUpdate ==> next is Done && action is Finish,
        state is Done ==> false,
{
}

} // verus!
