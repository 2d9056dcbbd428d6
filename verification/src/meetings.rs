//! Recorded meetings: which calendar events hold a recording, the record
//! kept for each, and when a recording is sent for transcription.
//!
//! The sync job walks the company's calendars; for each past event it asks
//! this module whether the event holds a meeting recording, builds the
//! record, merges what the database and Airtable already hold, and decides
//! whether to post the video for transcription or to fetch a finished
//! transcript.

use vstd::prelude::*;
use vstd::utf8::*;
use crate::dates::UtcInstant;
use crate::text::{
    ends_with, law_trim_end_matches_leaves_no_suffix, law_trim_start_matches_leaves_no_prefix,
    lemma_truncate_idempotent, spec_ends_with, spec_starts_with, spec_trim,
    spec_trim_end_matches, spec_trim_start_matches, spec_truncate, starts_with, str_eq, trim,
    trim_end_matches, trim_start_matches, truncate,
};

verus! {

/// The longest transcript, in characters, that a record keeps.
pub const MAX_TRANSCRIPT_CHARS: usize = 100000;

/// The MIME type of a meeting's video recording.
pub const VIDEO_MIME_TYPE: &'static str = "video/mp4";

/// The MIME type of a meeting's chat log.
pub const CHAT_LOG_MIME_TYPE: &'static str = "text/plain";

/// A prefix that Google Drive links put before a file id.
pub const DRIVE_OPEN_PREFIX: &'static str = "https://drive.google.com/open?id=";

/// The other prefix that Google Drive links put before a file id.
pub const DRIVE_FILE_PREFIX: &'static str = "https://drive.google.com/file/d/";

/// The suffix that Google Drive links put after a file id.
pub const DRIVE_VIEW_SUFFIX: &'static str = "/view?usp=drive_web";

/// A recorded meeting, as it is written to the database.
#[derive(Clone, Debug, PartialEq)]
pub struct NewRecordedMeeting {
    pub name: String,
    pub description: String,
    pub start_time: UtcInstant,
    pub end_time: UtcInstant,
    pub video: String,
    pub chat_log_link: String,
    pub chat_log: String,
    pub is_recurring: bool,
    pub attendees: Vec<String>,
    pub transcript: String,
    pub transcript_id: String,
    pub google_event_id: String,
    pub event_link: String,
    pub location: String,
    /// The CIO company ID.
    pub cio_company_id: i32,
}

/// A recorded meeting as the database holds it: the fields of
/// [`NewRecordedMeeting`] with the row id and the Airtable record id.
#[derive(Clone, Debug, PartialEq)]
pub struct RecordedMeeting {
    pub id: i32,
    pub name: String,
    pub description: String,
    pub start_time: UtcInstant,
    pub end_time: UtcInstant,
    pub video: String,
    pub chat_log_link: String,
    pub chat_log: String,
    pub is_recurring: bool,
    pub attendees: Vec<String>,
    pub transcript: String,
    pub transcript_id: String,
    pub google_event_id: String,
    pub event_link: String,
    pub location: String,
    /// The CIO company ID.
    pub cio_company_id: i32,
    pub airtable_record_id: String,
}

/// The transcript id a record holds after taking in an incoming one: the
/// incoming id where it is not empty, else its own.
pub open spec fn spec_merged_transcript_id(own: Seq<char>, incoming: Seq<char>) -> Seq<char> {
    if incoming.len() > 0 {
        incoming
    } else {
        own
    }
}

/// The transcript a record holds after taking in an incoming one: the
/// incoming transcript where it is not empty, else its own, cut to
/// [`MAX_TRANSCRIPT_CHARS`] characters.
pub open spec fn spec_merged_transcript(own: Seq<char>, incoming: Seq<char>) -> Seq<char> {
    spec_truncate(
        if incoming.len() > 0 {
            incoming
        } else {
            own
        },
        MAX_TRANSCRIPT_CHARS as nat,
    )
}

impl RecordedMeeting {
    /// Takes the transcript id and the transcript of `record` (the same
    /// meeting as Airtable holds it) where they are not empty, and cuts the
    /// transcript to [`MAX_TRANSCRIPT_CHARS`] characters. Nothing else
    /// changes.
    pub fn update_airtable_record(&mut self, record: RecordedMeeting)
        ensures
            final(self).transcript_id@ == spec_merged_transcript_id(
                old(self).transcript_id@,
                record.transcript_id@,
            ),
            final(self).transcript@ == spec_merged_transcript(
                old(self).transcript@,
                record.transcript@,
            ),
            *final(self) == (RecordedMeeting {
                transcript_id: final(self).transcript_id,
                transcript: final(self).transcript,
                ..*old(self)
            }),
    {
        if !record.transcript_id.as_str().is_empty() {
            self.transcript_id = record.transcript_id;
        }
        if !record.transcript.as_str().is_empty() {
            self.transcript = record.transcript;
        }
        self.transcript = truncate(self.transcript.as_str(), MAX_TRANSCRIPT_CHARS);
    }
}

/// Taking in the same record twice leaves what taking it in once left.
pub proof fn law_airtable_merge_idempotent(
    own_id: Seq<char>,
    own_transcript: Seq<char>,
    incoming_id: Seq<char>,
    incoming_transcript: Seq<char>,
)
    ensures
        spec_merged_transcript_id(
            spec_merged_transcript_id(own_id, incoming_id),
            incoming_id,
        ) == spec_merged_transcript_id(own_id, incoming_id),
        spec_merged_transcript(
            spec_merged_transcript(own_transcript, incoming_transcript),
            incoming_transcript,
        ) == spec_merged_transcript(own_transcript, incoming_transcript),
{
    lemma_truncate_idempotent(own_transcript, MAX_TRANSCRIPT_CHARS as nat);
    lemma_truncate_idempotent(incoming_transcript, MAX_TRANSCRIPT_CHARS as nat);
}

/// A merged transcript never holds more than [`MAX_TRANSCRIPT_CHARS`]
/// characters, and an incoming transcript that fits is kept whole.
pub proof fn law_merged_transcript_bounded(own: Seq<char>, incoming: Seq<char>)
    ensures
        spec_merged_transcript(own, incoming).len() <= MAX_TRANSCRIPT_CHARS,
        0 < incoming.len() <= MAX_TRANSCRIPT_CHARS ==> spec_merged_transcript(own, incoming)
            == incoming,
{
}


/// A person invited to a calendar event.
#[derive(Clone, Debug, PartialEq)]
pub struct Attendee {
    pub email: String,
    /// A room or other resource rather than a person.
    pub resource: bool,
}

/// A file attached to a calendar event.
#[derive(Clone, Debug, PartialEq)]
pub struct Attachment {
    pub title: String,
    pub mime_type: String,
    pub file_url: String,
}

/// A past calendar event, with what the sync reads of it.
#[derive(Clone, Debug, PartialEq)]
pub struct CalendarEvent {
    pub id: String,
    pub summary: String,
    pub description: String,
    pub location: String,
    pub html_link: String,
    /// Empty unless the event is an instance of a recurring one.
    pub recurring_event_id: String,
    /// The start, where the event has a date and time (not a whole day).
    pub start: Option<UtcInstant>,
    /// The end, where the event has a date and time.
    pub end: Option<UtcInstant>,
    pub attendees: Vec<Attendee>,
    pub attachments: Vec<Attachment>,
}

/// Whether a calendar belongs to the company: its id ends with the
/// company's G Suite domain.
pub fn is_company_calendar(calendar_id: &str, gsuite_domain: &str) -> (r: bool)
    ensures
        r == spec_ends_with(calendar_id@, gsuite_domain@),
{
    ends_with(calendar_id, gsuite_domain)
}

/// The emails of the attendees that are people, in the order given.
pub open spec fn spec_attendee_emails(attendees: Seq<Attendee>) -> Seq<Seq<char>>
    decreases attendees.len(),
{
    if attendees.len() == 0 {
        seq![]
    } else {
        let rest = spec_attendee_emails(attendees.drop_last());
        if attendees.last().resource {
            rest
        } else {
            rest.push(attendees.last().email@)
        }
    }
}

/// The emails of the attendees that are people, in the order given.
pub fn meeting_attendees(attendees: &Vec<Attendee>) -> (r: Vec<String>)
    ensures
        r@.map_values(|e: String| e@) == spec_attendee_emails(attendees@),
{
    let mut r: Vec<String> = Vec::new();
    let n = attendees.len();
    for i in 0..n
        invariant
            n == attendees@.len(),
            r@.map_values(|e: String| e@) == spec_attendee_emails(attendees@.take(i as int)),
    {
        let ghost before = r@;
        assert(attendees@.take(i + 1).drop_last() =~= attendees@.take(i as int));
        let attendee = &attendees[i];
        if !attendee.resource {
            r.push(attendee.email.clone());
            assert(r@.map_values(|e: String| e@) =~= before.map_values(|e: String| e@).push(
                attendee.email@,
            ));
        }
    }
    assert(attendees@.take(n as int) =~= attendees@);
    r
}

/// An attachment is the meeting's file of type `mime_type`: it has that
/// type and its title begins with the event's summary.
pub open spec fn spec_is_meeting_file(a: Attachment, mime_type: Seq<char>, summary: Seq<char>) -> bool {
    a.mime_type@ == mime_type && spec_starts_with(a.title@, summary)
}

/// The link of the last attachment that is the meeting's file of type
/// `mime_type`, or the empty string where there is none.
pub open spec fn spec_meeting_file_url(
    attachments: Seq<Attachment>,
    mime_type: Seq<char>,
    summary: Seq<char>,
) -> Seq<char>
    decreases attachments.len(),
{
    if attachments.len() == 0 {
        seq![]
    } else if spec_is_meeting_file(attachments.last(), mime_type, summary) {
        attachments.last().file_url@
    } else {
        spec_meeting_file_url(attachments.drop_last(), mime_type, summary)
    }
}

/// The links to an event's video recording and chat log: for each, the
/// last attachment of the right type whose title begins with the summary,
/// or the empty string.
pub fn meeting_file_urls(attachments: &Vec<Attachment>, summary: &str) -> (r: (String, String))
    ensures
        r.0@ == spec_meeting_file_url(attachments@, VIDEO_MIME_TYPE@, summary@),
        r.1@ == spec_meeting_file_url(attachments@, CHAT_LOG_MIME_TYPE@, summary@),
{
    let mut video = String::new();
    let mut chat_log_link = String::new();
    let n = attachments.len();
    for i in 0..n
        invariant
            n == attachments@.len(),
            video@ == spec_meeting_file_url(
                attachments@.take(i as int),
                VIDEO_MIME_TYPE@,
                summary@,
            ),
            chat_log_link@ == spec_meeting_file_url(
                attachments@.take(i as int),
                CHAT_LOG_MIME_TYPE@,
                summary@,
            ),
    {
        assert(attachments@.take(i + 1).drop_last() =~= attachments@.take(i as int));
        let attachment = &attachments[i];
        let titled = starts_with(attachment.title.as_str(), summary);
        if str_eq(attachment.mime_type.as_str(), VIDEO_MIME_TYPE) && titled {
            video = attachment.file_url.clone();
        }
        if str_eq(attachment.mime_type.as_str(), CHAT_LOG_MIME_TYPE) && titled {
            chat_log_link = attachment.file_url.clone();
        }
    }
    assert(attachments@.take(n as int) =~= attachments@);
    (video, chat_log_link)
}

/// What a calendar event holds of a meeting recording.
#[derive(Clone, Debug, PartialEq)]
pub struct MeetingRecording {
    /// The link to the video.
    pub video: String,
    /// The link to the chat log, or the empty string.
    pub chat_log_link: String,
    /// The emails of the attendees that are people.
    pub attendees: Vec<String>,
}

/// Whether an event holds a meeting recording: it has attachments and one
/// of them is the meeting's video with a non-empty link.
pub open spec fn spec_has_recording(event: CalendarEvent) -> bool {
    event.attachments@.len() > 0 && spec_meeting_file_url(
        event.attachments@,
        VIDEO_MIME_TYPE@,
        event.summary@,
    ).len() > 0
}

/// The recording an event holds, or `None` where it holds none (no
/// attachments, or no video among them).
pub fn find_recording(event: &CalendarEvent) -> (r: Option<MeetingRecording>)
    ensures
        r is Some <==> spec_has_recording(*event),
        r matches Some(rec) ==> {
            &&& rec.video@ == spec_meeting_file_url(
                event.attachments@,
                VIDEO_MIME_TYPE@,
                event.summary@,
            )
            &&& rec.chat_log_link@ == spec_meeting_file_url(
                event.attachments@,
                CHAT_LOG_MIME_TYPE@,
                event.summary@,
            )
            &&& rec.attendees@.map_values(|e: String| e@) == spec_attendee_emails(
                event.attendees@,
            )
        },
{
    if event.attachments.len() == 0 {
        return None;
    }
    let attendees = meeting_attendees(&event.attendees);
    let (video, chat_log_link) = meeting_file_urls(&event.attachments, event.summary.as_str());
    if video.as_str().is_empty() {
        return None;
    }
    Some(MeetingRecording { video, chat_log_link, attendees })
}

/// The Google Drive file id in a Drive link: the link without its
/// leading `open?id=` and `file/d/` prefixes and its trailing
/// `/view?usp=drive_web` suffixes.
pub open spec fn spec_drive_file_id(link: Seq<char>) -> Seq<char> {
    spec_trim_end_matches(
        spec_trim_start_matches(
            spec_trim_start_matches(link, DRIVE_OPEN_PREFIX@),
            DRIVE_FILE_PREFIX@,
        ),
        DRIVE_VIEW_SUFFIX@,
    )
}

/// The Google Drive file id in a Drive link.
pub fn drive_file_id(link: &str) -> (r: &str)
    ensures
        r@ == spec_drive_file_id(link@),
{
    trim_end_matches(
        trim_start_matches(trim_start_matches(link, DRIVE_OPEN_PREFIX), DRIVE_FILE_PREFIX),
        DRIVE_VIEW_SUFFIX,
    )
}

/// A file id taken from a Drive link never ends with the
/// `/view?usp=drive_web` suffix, and is a run of consecutive characters
/// of the link.
pub proof fn law_drive_file_id_has_no_view_suffix(link: Seq<char>)
    ensures
        !spec_ends_with(spec_drive_file_id(link), DRIVE_VIEW_SUFFIX@),
        exists|a: int, b: int|
            0 <= a <= b <= link.len() && #[trigger] link.subrange(a, b) == spec_drive_file_id(
                link,
            ),
{
    reveal_strlit("https://drive.google.com/open?id=");
    reveal_strlit("https://drive.google.com/file/d/");
    reveal_strlit("/view?usp=drive_web");
    let a = spec_trim_start_matches(link, DRIVE_OPEN_PREFIX@);
    let b = spec_trim_start_matches(a, DRIVE_FILE_PREFIX@);
    let c = spec_drive_file_id(link);
    law_trim_start_matches_leaves_no_prefix(link, DRIVE_OPEN_PREFIX@);
    law_trim_start_matches_leaves_no_prefix(a, DRIVE_FILE_PREFIX@);
    law_trim_end_matches_leaves_no_suffix(b, DRIVE_VIEW_SUFFIX@);
    let start = link.len() - b.len();
    assert(link.subrange(start, start + c.len()) =~= c);
}

/// `std::str::from_utf8`: the bytes as a string where they are valid
/// UTF-8, `None` where they are not.
#[verifier::external_body]
fn str_from_utf8(bytes: &[u8]) -> (r: Option<&str>)
    ensures
        r is Some <==> valid_utf8(bytes@),
        r matches Some(s) ==> encode_utf8(s@) == bytes@,
{
    std::str::from_utf8(bytes).ok()
}

/// The text of a downloaded file: its bytes decoded as UTF-8, or empty
/// where they are not UTF-8.
pub open spec fn spec_utf8_text(bytes: Seq<u8>) -> Seq<char> {
    if valid_utf8(bytes) {
        decode_utf8(bytes)
    } else {
        seq![]
    }
}

/// The chat log kept for a meeting, from the bytes of the downloaded file
/// (empty where the download failed): the decoded text with surrounding
/// white space removed, or empty where the bytes are not UTF-8.
pub fn chat_log_text(contents: &[u8]) -> (r: String)
    ensures
        r@ == spec_trim(spec_utf8_text(contents@)),
{
    match str_from_utf8(contents) {
        Some(s) => {
            proof {
                encode_utf8_decode_utf8(s@);
            }
            String::from_str(trim(s))
        },
        None => {
            let empty: &str = "";
            proof {
                reveal_strlit("");
            }
            String::from_str(trim(empty))
        },
    }
}


/// `m` is the fresh record of the meeting that `event` recorded, as
/// [`new_recorded_meeting`] builds it.
pub open spec fn spec_is_new_meeting(
    m: NewRecordedMeeting,
    event: CalendarEvent,
    recording: MeetingRecording,
    chat_log: String,
    company_id: i32,
) -> bool {
    &&& m.name@ == spec_trim(event.summary@)
    &&& m.description@ == spec_trim(event.description@)
    &&& m.start_time == event.start->0
    &&& m.end_time == event.end->0
    &&& m.video == recording.video
    &&& m.chat_log_link == recording.chat_log_link
    &&& m.chat_log == chat_log
    &&& m.is_recurring == (event.recurring_event_id@.len() > 0)
    &&& m.attendees == recording.attendees
    &&& m.transcript@.len() == 0
    &&& m.transcript_id@.len() == 0
    &&& m.location == event.location
    &&& m.google_event_id == event.id
    &&& m.event_link == event.html_link
    &&& m.cio_company_id == company_id
}

/// The record of the meeting that `event` recorded: its summary and
/// description without surrounding white space, its times, links, chat log
/// and attendees, flagged recurring when the event is an instance of a
/// recurring one, and with no transcript yet.
pub fn new_recorded_meeting(
    event: CalendarEvent,
    recording: MeetingRecording,
    chat_log: String,
    company_id: i32,
) -> (r: NewRecordedMeeting)
    requires
        event.start is Some,
        event.end is Some,
    ensures
        spec_is_new_meeting(r, event, recording, chat_log, company_id),
{
    let name = String::from_str(trim(event.summary.as_str()));
    let description = String::from_str(trim(event.description.as_str()));
    let is_recurring = !event.recurring_event_id.as_str().is_empty();
    NewRecordedMeeting {
        name,
        description,
        start_time: event.start.unwrap(),
        end_time: event.end.unwrap(),
        video: recording.video,
        chat_log_link: recording.chat_log_link,
        chat_log,
        is_recurring,
        attendees: recording.attendees,
        transcript: String::new(),
        transcript_id: String::new(),
        location: event.location,
        google_event_id: event.id,
        event_link: event.html_link,
        cio_company_id: company_id,
    }
}

/// The transcript a fresh record takes from the database row of the same
/// meeting, and from that row's Airtable record where there is one: the
/// row's value, or where that is empty, Airtable's.
pub open spec fn spec_stored_value(stored: Seq<char>, airtable: Option<Seq<char>>) -> Seq<char> {
    match airtable {
        Some(a) => if stored.len() > 0 {
            stored
        } else {
            a
        },
        None => stored,
    }
}

impl NewRecordedMeeting {
    /// Where the transcript or the transcript id is empty, takes the one
    /// that the Airtable record `airtable` holds. Nothing else changes.
    pub fn fill_from_airtable(&mut self, airtable: &RecordedMeeting)
        ensures
            final(self).transcript@ == spec_stored_value(
                old(self).transcript@,
                Some(airtable.transcript@),
            ),
            final(self).transcript_id@ == spec_stored_value(
                old(self).transcript_id@,
                Some(airtable.transcript_id@),
            ),
            *final(self) == (NewRecordedMeeting {
                transcript: final(self).transcript,
                transcript_id: final(self).transcript_id,
                ..*old(self)
            }),
    {
        if self.transcript.as_str().is_empty() {
            self.transcript = airtable.transcript.clone();
        }
        if self.transcript_id.as_str().is_empty() {
            self.transcript_id = airtable.transcript_id.clone();
        }
    }

    /// Takes the transcript and transcript id that the database row of the
    /// same meeting holds; where one of them is empty there, takes the one
    /// its Airtable record holds, if it has one. Nothing else changes.
    pub fn adopt_stored_transcript(
        &mut self,
        stored: &RecordedMeeting,
        airtable: Option<&RecordedMeeting>,
    )
        ensures
            final(self).transcript@ == spec_stored_value(
                stored.transcript@,
                match airtable {
                    Some(a) => Some(a.transcript@),
                    None => None,
                },
            ),
            final(self).transcript_id@ == spec_stored_value(
                stored.transcript_id@,
                match airtable {
                    Some(a) => Some(a.transcript_id@),
                    None => None,
                },
            ),
            *final(self) == (NewRecordedMeeting {
                transcript: final(self).transcript,
                transcript_id: final(self).transcript_id,
                ..*old(self)
            }),
    {
        self.transcript = stored.transcript.clone();
        self.transcript_id = stored.transcript_id.clone();
        if let Some(existing) = airtable {
            if self.transcript.as_str().is_empty() {
                self.transcript = existing.transcript.clone();
            }
            if self.transcript_id.as_str().is_empty() {
                self.transcript_id = existing.transcript_id.clone();
            }
        }
    }
}

/// What to do about a meeting's transcript once its record is stored.
#[derive(Clone, Copy, Debug, PartialEq, Eq)]
pub enum TranscriptStep {
    /// Nothing: no video was downloaded, or the transcript is there.
    Nothing,
    /// Post the video to be transcribed and keep the job id.
    CreateJob,
    /// Fetch the transcript of the job already posted.
    FetchTranscript,
}

/// The transcript step for a stored meeting with the given transcript id
/// and transcript, given whether its video was downloaded (and is not
/// empty).
pub open spec fn spec_transcript_step(
    transcript_id: Seq<char>,
    transcript: Seq<char>,
    have_video: bool,
) -> TranscriptStep {
    if !have_video {
        TranscriptStep::Nothing
    } else if transcript_id.len() == 0 && transcript.len() == 0 {
        TranscriptStep::CreateJob
    } else if transcript.len() == 0 {
        TranscriptStep::FetchTranscript
    } else {
        TranscriptStep::Nothing
    }
}

impl RecordedMeeting {
    /// What to do about this meeting's transcript: with the video at hand,
    /// post it when there is neither a transcript id nor a transcript,
    /// fetch the transcript when there is an id but no transcript.
    pub fn transcript_step(&self, have_video: bool) -> (r: TranscriptStep)
        ensures
            r == spec_transcript_step(self.transcript_id@, self.transcript@, have_video),
    {
        if !have_video {
            TranscriptStep::Nothing
        } else if self.transcript_id.as_str().is_empty() && self.transcript.as_str().is_empty() {
            TranscriptStep::CreateJob
        } else if self.transcript.as_str().is_empty() {
            TranscriptStep::FetchTranscript
        } else {
            TranscriptStep::Nothing
        }
    }

    /// Keeps the id of the transcription job posted for this meeting.
    pub fn record_transcription_job(&mut self, job_id: &str)
        ensures
            final(self).transcript_id@ == job_id@,
            *final(self) == (RecordedMeeting { transcript_id: final(self).transcript_id, ..*old(self) }),
    {
        self.transcript_id = String::from_str(job_id);
    }

    /// Keeps a fetched transcript, without surrounding white space (the
    /// empty string where the fetch failed).
    pub fn record_transcript(&mut self, fetched: &str)
        ensures
            final(self).transcript@ == spec_trim(fetched@),
            *final(self) == (RecordedMeeting { transcript: final(self).transcript, ..*old(self) }),
    {
        self.transcript = String::from_str(trim(fetched));
    }
}

/// A meeting's video is posted for transcription at most once: after a
/// job id is kept, the next step is never to post again.
pub proof fn law_transcription_job_posted_once(
    job_id: Seq<char>,
    transcript: Seq<char>,
    have_video: bool,
)
    requires
        job_id.len() > 0,
    ensures
        spec_transcript_step(job_id, transcript, have_video) != TranscriptStep::CreateJob,
{
}

/// Once a fetched transcript with some text is kept, there is nothing
/// more to do for the meeting.
pub proof fn law_fetched_transcript_settles(
    transcript_id: Seq<char>,
    fetched: Seq<char>,
    have_video: bool,
)
    requires
        spec_trim(fetched).len() > 0,
    ensures
        spec_transcript_step(transcript_id, spec_trim(fetched), have_video)
            == TranscriptStep::Nothing,
{
}

/// Without the video at hand, nothing is posted or fetched.
pub proof fn law_no_video_no_transcript_work(transcript_id: Seq<char>, transcript: Seq<char>)
    ensures
        spec_transcript_step(transcript_id, transcript, false) == TranscriptStep::Nothing,
{
}


/// The attendee list is exactly the emails of the attendees that are
/// people, in order: the attendees with `resource` false, each mapped to its
/// email.
pub proof fn law_attendees_are_the_people(attendees: Seq<Attendee>)
    ensures
        spec_attendee_emails(attendees) == attendees.filter(|a: Attendee| !a.resource).map_values(
            |a: Attendee| a.email@,
        ),
    decreases attendees.len(),
{
    reveal_with_fuel(Seq::<_>::filter, 1);
    if attendees.len() > 0 {
        let rest = attendees.drop_last();
        law_attendees_are_the_people(rest);
        let f = rest.filter(|a: Attendee| !a.resource);
        if !attendees.last().resource {
            assert(f.push(attendees.last()).map_values(|a: Attendee| a.email@) =~= f.map_values(
                |a: Attendee| a.email@,
            ).push(attendees.last().email@));
        }
    } else {
        assert(attendees.filter(|a: Attendee| !a.resource).map_values(|a: Attendee| a.email@)
            =~= Seq::<Seq<char>>::empty());
    }
}

/// Where every attendee is a person, the list holds one email per
/// attendee, in order.
pub proof fn law_attendees_all_people(attendees: Seq<Attendee>)
    requires
        forall|i: int| 0 <= i < attendees.len() ==> !(#[trigger] attendees[i]).resource,
    ensures
        spec_attendee_emails(attendees).len() == attendees.len(),
        forall|i: int|
            0 <= i < attendees.len() ==> #[trigger] spec_attendee_emails(attendees)[i]
                == attendees[i].email@,
    decreases attendees.len(),
{
    if attendees.len() > 0 {
        let rest = attendees.drop_last();
        assert forall|i: int| 0 <= i < rest.len() implies !(#[trigger] rest[i]).resource by {
            assert(rest[i] == attendees[i]);
        }
        law_attendees_all_people(rest);
        assert(!attendees[attendees.len() - 1].resource);
        assert forall|i: int| 0 <= i < attendees.len() implies #[trigger] spec_attendee_emails(
            attendees,
        )[i] == attendees[i].email@ by {
            if i < attendees.len() - 1 {
                assert(rest[i] == attendees[i]);
            }
        }
    }
}

/// A non-empty incoming transcript id always replaces the row's own,
/// whatever that is; an empty one leaves the row's id as it was.
pub proof fn law_incoming_transcript_id_wins(own: Seq<char>, incoming: Seq<char>)
    ensures
        incoming.len() > 0 ==> spec_merged_transcript_id(own, incoming) == incoming,
        incoming.len() == 0 ==> spec_merged_transcript_id(own, incoming) == own,
{
}

/// The merged transcript is the incoming one where that is not empty, else
/// the row's own, in both cases cut to its first 100000 characters.
pub proof fn law_incoming_transcript_wins(own: Seq<char>, incoming: Seq<char>)
    ensures
        incoming.len() > 0 && incoming.len() <= MAX_TRANSCRIPT_CHARS ==> spec_merged_transcript(
            own,
            incoming,
        ) == incoming,
        incoming.len() > MAX_TRANSCRIPT_CHARS ==> spec_merged_transcript(own, incoming)
            == incoming.subrange(0, MAX_TRANSCRIPT_CHARS as int),
        incoming.len() == 0 && own.len() <= MAX_TRANSCRIPT_CHARS ==> spec_merged_transcript(
            own,
            incoming,
        ) == own,
        incoming.len() == 0 && own.len() > MAX_TRANSCRIPT_CHARS ==> spec_merged_transcript(
            own,
            incoming,
        ) == own.subrange(0, MAX_TRANSCRIPT_CHARS as int),
{
}

/// The stored value wins where it is not empty; Airtable's fills the gap
/// only where the row's is empty and there is an Airtable record.
pub proof fn law_stored_value_precedence(stored: Seq<char>, airtable: Option<Seq<char>>)
    ensures
        stored.len() > 0 ==> spec_stored_value(stored, airtable) == stored,
        airtable is None ==> spec_stored_value(stored, airtable) == stored,
        stored.len() == 0 && airtable is Some ==> spec_stored_value(stored, airtable)
            == airtable->0,
{
}

/// The whole table of the transcript step: nothing without the video;
/// with it, post when there is neither an id nor a transcript, fetch when
/// there is an id but no transcript, and nothing once a transcript is there.
pub proof fn law_transcript_step_table(transcript_id: Seq<char>, transcript: Seq<char>, have_video: bool)
    ensures
        !have_video ==> spec_transcript_step(transcript_id, transcript, have_video)
            == TranscriptStep::Nothing,
        transcript.len() > 0 ==> spec_transcript_step(transcript_id, transcript, have_video)
            == TranscriptStep::Nothing,
        have_video && transcript_id.len() == 0 && transcript.len() == 0 ==> spec_transcript_step(
            transcript_id,
            transcript,
            have_video,
        ) == TranscriptStep::CreateJob,
        have_video && transcript_id.len() > 0 && transcript.len() == 0 ==> spec_transcript_step(
            transcript_id,
            transcript,
            have_video,
        ) == TranscriptStep::FetchTranscript,
{
}

/// Where no attachment is the meeting's file of a type, its link is
/// empty.
pub proof fn law_meeting_file_none_matches(
    attachments: Seq<Attachment>,
    mime_type: Seq<char>,
    summary: Seq<char>,
)
    requires
        forall|j: int|
            0 <= j < attachments.len() ==> !spec_is_meeting_file(
                #[trigger] attachments[j],
                mime_type,
                summary,
            ),
    ensures
        spec_meeting_file_url(attachments, mime_type, summary).len() == 0,
    decreases attachments.len(),
{
    if attachments.len() > 0 {
        let rest = attachments.drop_last();
        assert(!spec_is_meeting_file(attachments[attachments.len() - 1], mime_type, summary));
        assert forall|j: int| 0 <= j < rest.len() implies !spec_is_meeting_file(
            #[trigger] rest[j],
            mime_type,
            summary,
        ) by {
            assert(rest[j] == attachments[j]);
        }
        law_meeting_file_none_matches(rest, mime_type, summary);
    }
}

/// The meeting's file of a type is the link of the last attachment of
/// that type whose title begins with the summary: where attachment `i`
/// matches and none after it does, the link is `i`'s.
pub proof fn law_meeting_file_is_last_match(
    attachments: Seq<Attachment>,
    mime_type: Seq<char>,
    summary: Seq<char>,
    i: int,
)
    requires
        0 <= i < attachments.len(),
        spec_is_meeting_file(attachments[i], mime_type, summary),
        forall|j: int|
            i < j < attachments.len() ==> !spec_is_meeting_file(
                #[trigger] attachments[j],
                mime_type,
                summary,
            ),
    ensures
        spec_meeting_file_url(attachments, mime_type, summary) == attachments[i].file_url@,
    decreases attachments.len(),
{
    let n = attachments.len() - 1;
    if i < n {
        let rest = attachments.drop_last();
        assert(!spec_is_meeting_file(attachments[n], mime_type, summary));
        assert(rest[i] == attachments[i]);
        assert forall|j: int| i < j < rest.len() implies !spec_is_meeting_file(
            #[trigger] rest[j],
            mime_type,
            summary,
        ) by {
            assert(rest[j] == attachments[j]);
        }
        law_meeting_file_is_last_match(rest, mime_type, summary, i);
    }
}


/// A link that carries neither Drive prefix nor the view suffix is its
/// own file id; after the `open?id=` prefix, the rest of such a link is.
pub proof fn law_drive_file_id_of_plain_and_open_links(x: Seq<char>)
    requires
        !spec_starts_with(x, DRIVE_OPEN_PREFIX@),
        !spec_starts_with(x, DRIVE_FILE_PREFIX@),
        !spec_ends_with(x, DRIVE_VIEW_SUFFIX@),
    ensures
        spec_drive_file_id(x) == x,
        spec_drive_file_id(DRIVE_OPEN_PREFIX@ + x) == x,
{
    reveal_strlit("https://drive.google.com/open?id=");
    let o = DRIVE_OPEN_PREFIX@;
    let ox = o + x;
    assert(ox.subrange(0, o.len() as int) =~= o);
    assert(ox.skip(o.len() as int) =~= x);
    assert(spec_trim_start_matches(x, o) == x);
    assert(spec_trim_start_matches(ox, o) == spec_trim_start_matches(ox.skip(o.len() as int), o));
}


/// An event holds a recording exactly where one of its attachments is the
/// meeting's video with a non-empty link.
pub proof fn law_recording_is_a_video_link(event: CalendarEvent)
    ensures
        spec_has_recording(event) <==> spec_meeting_file_url(
            event.attachments@,
            VIDEO_MIME_TYPE@,
            event.summary@,
        ).len() > 0,
{
    if event.attachments@.len() == 0 {
        law_meeting_file_none_matches(event.attachments@, VIDEO_MIME_TYPE@, event.summary@);
    }
}

/// A fresh record keeps the event's summary and description without
/// surrounding white space, its times, id and links, the recording's
/// links and attendees, is flagged recurring exactly where the event has a
/// recurring id, and starts with neither transcript nor transcript id.
pub proof fn law_new_meeting_fields(
    m: NewRecordedMeeting,
    event: CalendarEvent,
    recording: MeetingRecording,
    chat_log: String,
    company_id: i32,
)
    requires
        spec_is_new_meeting(m, event, recording, chat_log, company_id),
    ensures
        m.name@ == spec_trim(event.summary@),
        m.description@ == spec_trim(event.description@),
        event.start is Some ==> m.start_time == event.start->0,
        event.end is Some ==> m.end_time == event.end->0,
        m.is_recurring <==> event.recurring_event_id@.len() > 0,
        m.transcript@ == Seq::<char>::empty(),
        m.transcript_id@ == Seq::<char>::empty(),
        m.video == recording.video && m.chat_log_link == recording.chat_log_link,
        m.attendees == recording.attendees && m.chat_log == chat_log,
        m.google_event_id == event.id && m.event_link == event.html_link,
        m.location == event.location && m.cio_company_id == company_id,
{
    assert(m.transcript@ =~= Seq::<char>::empty());
    assert(m.transcript_id@ =~= Seq::<char>::empty());
}

} // verus!
