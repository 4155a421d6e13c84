//! What holds of a file over any course of events.

use reqwest::Response;
use vstd::prelude::*;
use vstd::utf8::encode_utf8;

use crate::error::{ErrorKind, FileError};
use crate::file::skip_len;
use crate::header::{after_slash, range_text_total};
use crate::number::{decimal_text, law_decimal_round_trip, lemma_decimal_text_digits, parsed_u64};
use crate::request::range_value;
use crate::response::{
    announced_size, response_size, response_status, response_verdict, size_fits, status_verdict, OK,
    PARTIAL_CONTENT,
};
use crate::state::{Announcement, Event, FileModel, KnownSize, SeekFrom, State};

verus! {

impl<P, R> Event<P, R> {
    /// Whether the event is a step on the way to a file that is ready to be
    /// read, and not something that the user of the file asks for.
    pub open spec fn is_drive(self) -> bool {
        match self {
            Event::Seek(_) => false,
            Event::Reset => false,
            Event::Read(_) => false,
            _ => true,
        }
    }
}

impl<P, R> FileModel<P, R> {
    /// Whether an event can happen: reads take place only in a file that is
    /// ready, and a fast-forward reads no further than it is to go.
    pub open spec fn allows(self, event: Event<P, R>) -> bool {
        match event {
            Event::Skipped(count) => self.state matches State::Seeking(_, delta) && count <= delta,
            Event::Read(_) => self.state is Ready,
            _ => true,
        }
    }

    /// Whether a course of events can happen.
    pub open spec fn allows_all(self, window: u64, events: Seq<Event<P, R>>) -> bool
        decreases events.len(),
    {
        events.len() > 0 ==> {
            &&& self.allows_all(window, events.drop_last())
            &&& self.run(window, events.drop_last()).allows(events.last())
        }
    }

    /// The file after a course of events.
    pub open spec fn run(self, window: u64, events: Seq<Event<P, R>>) -> Self
        decreases events.len(),
    {
        if events.len() == 0 {
            self
        } else {
            self.run(window, events.drop_last()).step(window, events.last())
        }
    }

    /// How far the file is from being ready to be read.
    pub open spec fn distance(self) -> nat {
        match self.state {
            State::Ready(_) => 0,
            State::Seeking(_, delta) => delta as nat,
            State::Pending(_) => u64::MAX as nat + 1,
            _ => u64::MAX as nat + 2,
        }
    }
}

/// Whether all events of a course are steps on the way to a file that is ready
/// to be read.
pub open spec fn all_drive<P, R>(events: Seq<Event<P, R>>) -> bool {
    forall|i: int| 0 <= i < events.len() ==> (#[trigger] events[i]).is_drive()
}

/// A seek relative to the start resolves to the position that it names,
/// whatever the file is like.
pub proof fn law_seek_from_start<P, R>(file: FileModel<P, R>, position: u64)
    ensures
        file.resolved(SeekFrom::Start(position)) == Ok::<u64, FileError>(position),
{
}

/// A seek relative to the end resolves to the distance from the known size, at
/// whatever position the file is, and whether the size was given or announced.
/// Beyond the largest position it resolves to that one, and before the first
/// byte it is refused. While the size is unknown it is refused, too.
pub proof fn law_seek_from_end<P, R>(file: FileModel<P, R>, size: u64, delta: i64)
    ensures
        file.size == KnownSize::Given(size) || file.size == KnownSize::Announced(size) ==> {
            let resolved = file.resolved(SeekFrom::End(delta));
            &&& size + delta < 0 ==> resolved == Err::<u64, FileError>(FileError::InvalidInput)
            &&& 0 <= size + delta <= u64::MAX ==> resolved == Ok::<u64, FileError>(
                (size + delta) as u64,
            )
            &&& size + delta > u64::MAX ==> resolved == Ok::<u64, FileError>(u64::MAX)
        },
        file.size == KnownSize::Unknown ==> file.resolved(SeekFrom::End(delta)) == Err::<
            u64,
            FileError,
        >(FileError::Unsupported),
{
}

/// A seek relative to the current position resolves to the distance from it.
/// Beyond the largest position it resolves to that one, and before the first
/// byte it is refused.
pub proof fn law_seek_from_current<P, R>(file: FileModel<P, R>, delta: i64)
    ensures
        ({
            let resolved = file.resolved(SeekFrom::Current(delta));
            let sum = file.position + delta;
            &&& sum < 0 ==> resolved == Err::<u64, FileError>(FileError::InvalidInput)
            &&& 0 <= sum <= u64::MAX ==> resolved == Ok::<u64, FileError>(sum as u64)
            &&& sum > u64::MAX ==> resolved == Ok::<u64, FileError>(u64::MAX)
        }),
{
}

/// It does not matter how a position is named: seeks relative to the end and to
/// the current position do what a seek to the sum of the numbers does.
pub proof fn law_seeks_to_one_position_agree<P, R>(
    file: FileModel<P, R>,
    window: u64,
    position: u64,
    delta: i64,
)
    ensures
        file.position + delta == position ==> file.step(
            window,
            Event::Seek(SeekFrom::Current(delta)),
        ) == file.step(window, Event::Seek(SeekFrom::Start(position))),
        file.size.value() matches Some(size) ==> size + delta == position ==> file.step(
            window,
            Event::Seek(SeekFrom::End(delta)),
        ) == file.step(window, Event::Seek(SeekFrom::Start(position))),
{
}

/// What a seek to a position does. At this position already, it does nothing.
/// Forward by no more than the window, in a file that is ready to be read, it
/// heads there within the same response body. Everywhere else it puts the file
/// at the position, to send a new request. It never changes the template or
/// what is known of the size.
pub proof fn law_seek_effect<P, R>(file: FileModel<P, R>, window: u64, position: u64)
    ensures
        ({
            let after = file.step(window, Event::Seek(SeekFrom::Start(position)));
            let near = file.state is Ready && file.position < position <= file.position + window;
            &&& after.template == file.template
            &&& after.size == file.size
            &&& position == file.position ==> after == file
            &&& near ==> {
                &&& after.position == file.position
                &&& after.state is Seeking
                &&& after.state->Seeking_0 == file.state->Ready_0
                &&& after.position + after.state->Seeking_1 == position
            }
            &&& position != file.position && !near ==> {
                &&& after.position == position
                &&& after.state is Initial
            }
        }),
{
}

/// A seek that is refused changes nothing.
pub proof fn law_refused_seek_changes_nothing<P, R>(
    file: FileModel<P, R>,
    window: u64,
    seek: SeekFrom,
)
    requires
        match seek {
            SeekFrom::Start(_) => false,
            SeekFrom::End(delta) => match file.size {
                KnownSize::Unknown => true,
                KnownSize::Given(size) => size + delta < 0,
                KnownSize::Announced(size) => size + delta < 0,
            },
            SeekFrom::Current(delta) => file.position + delta < 0,
        },
    ensures
        file.step(window, Event::Seek(seek)) == file,
{
}

/// Resetting a file makes it send a new request from the current position on:
/// the position, the template and what is known of the size stay as they are.
pub proof fn law_reset_effect<P, R>(file: FileModel<P, R>, window: u64)
    ensures
        ({
            let after = file.step(window, Event::Reset);
            &&& after.state is Initial
            &&& after.position == file.position
            &&& after.size == file.size
            &&& after.template == file.template
        }),
{
}

/// Sending the request makes the file await this response, at the same
/// position. A file that is not about to send a request is left alone.
pub proof fn law_send_effect<P, R>(file: FileModel<P, R>, window: u64, future: P)
    ensures
        ({
            let after = file.step(window, Event::Sent(future));
            &&& after.position == file.position
            &&& after.size == file.size
            &&& after.template == file.template
            &&& file.state is Initial ==> after.state == State::<P, R>::Pending(future)
            &&& file.state !is Initial ==> after == file
        }),
{
}

/// The arrival of an awaited response makes the file read its body, at the same
/// position. A file that awaits no response is left alone.
pub proof fn law_arrival_effect<P, R>(
    file: FileModel<P, R>,
    window: u64,
    announced: Option<Announcement>,
    reader: R,
)
    ensures
        ({
            let after = file.step(window, Event::Arrived(announced, reader));
            &&& after.position == file.position
            &&& after.template == file.template
            &&& file.state is Pending ==> after.state == State::<P, R>::Ready(reader)
            &&& file.state !is Pending ==> after == file
        }),
{
}

/// Polling a future or a reader changes it, and nothing else of the file.
pub proof fn law_poll_effect<P, R>(file: FileModel<P, R>, window: u64, future: P, reader: R)
    ensures
        ({
            let awaited = file.step(window, Event::Awaited(future));
            &&& awaited.position == file.position
            &&& awaited.size == file.size
            &&& awaited.template == file.template
            &&& file.state is Pending ==> awaited.state == State::<P, R>::Pending(future)
            &&& file.state !is Pending ==> awaited == file
        }),
        ({
            let polled = file.step(window, Event::Polled(reader));
            &&& polled.position == file.position
            &&& polled.size == file.size
            &&& polled.template == file.template
            &&& file.state is Ready ==> polled.state == State::<P, R>::Ready(reader)
            &&& file.state matches State::Seeking(_, delta) ==> polled.state == State::<
                P,
                R,
            >::Seeking(reader, delta)
            &&& file.state !is Ready && file.state !is Seeking ==> polled == file
        }),
{
}

/// A read of a fast-forward moves the position by the bytes that were read, and
/// leaves that much less to go, in the same response body. Where the bytes run
/// out the file is put at the position that the fast-forward heads for. It is
/// ready to be read exactly if it came to that position.
pub proof fn law_skip_effect<P, R>(file: FileModel<P, R>, window: u64, count: nat)
    requires
        file.wf(window),
        file.state matches State::Seeking(_, delta) && count <= delta,
    ensures
        ({
            let after = file.step(window, Event::Skipped(count));
            let reader = file.state->Seeking_0;
            let goal = file.position + file.state->Seeking_1;
            &&& after.size == file.size
            &&& after.template == file.template
            &&& after.position == if count == 0 {
                goal
            } else {
                file.position + count
            }
            &&& after.position == goal ==> after.state == State::<P, R>::Ready(reader)
            &&& after.position != goal ==> {
                &&& after.state is Seeking
                &&& after.state->Seeking_0 == reader
                &&& after.position + after.state->Seeking_1 == goal
            }
        }),
{
}

/// A read moves the position by the bytes that were read, up to the largest
/// position, and keeps the response: the file stays ready to be read, in the
/// same response body.
pub proof fn law_read_effect<P, R>(file: FileModel<P, R>, window: u64, count: nat)
    ensures
        ({
            let after = file.step(window, Event::Read(count));
            &&& after.state == file.state
            &&& after.size == file.size
            &&& after.template == file.template
            &&& file.position + count <= u64::MAX ==> after.position == file.position + count
            &&& file.position + count > u64::MAX ==> after.position == u64::MAX
        }),
{
}

/// As long as nothing but reading happens, a file that is ready to be read stays
/// so: reading never asks for a new request, at the end of the file neither.
pub proof fn law_reading_keeps_response<P, R>(
    file: FileModel<P, R>,
    window: u64,
    events: Seq<Event<P, R>>,
)
    requires
        file.state is Ready,
        forall|i: int|
            0 <= i < events.len() ==> (#[trigger] events[i]) is Read || events[i] is Polled,
    ensures
        ({
            let after = file.run(window, events);
            &&& after.state is Ready
            &&& after.size == file.size
            &&& after.template == file.template
            &&& after.position >= file.position
            &&& (forall|i: int| 0 <= i < events.len() ==> (#[trigger] events[i]) is Read)
                ==> after.state == file.state
        }),
    decreases events.len(),
{
    if events.len() > 0 {
        let earlier = events.drop_last();
        assert forall|i: int| 0 <= i < earlier.len() implies (#[trigger] earlier[i]) is Read
            || earlier[i] is Polled by {
            assert(earlier[i] == events[i]);
        }
        assert(events[events.len() - 1] == events.last());
        law_reading_keeps_response(file, window, earlier);
        if forall|i: int| 0 <= i < events.len() ==> (#[trigger] events[i]) is Read {
            assert forall|i: int| 0 <= i < earlier.len() implies (
            #[trigger] earlier[i]) is Read by {
                assert(earlier[i] == events[i]);
            }
        }
    }
}

/// A read of a fast-forward asks for all that remains or for as much as fits in
/// the buffer, whichever is less. So with any buffer at all it asks for
/// something.
pub proof fn law_skip_asks_for_bytes(remaining: u64, buffer: usize)
    ensures
        skip_len(remaining, buffer) <= remaining,
        skip_len(remaining, buffer) <= buffer,
        skip_len(remaining, buffer) == remaining || skip_len(remaining, buffer) == buffer,
        remaining > 0 && buffer > 0 ==> skip_len(remaining, buffer) > 0,
{
}

/// What is known of a size, as a number: nothing at first, and then the number
/// that was given or announced.
pub proof fn law_known_size_is_the_number(size: u64)
    ensures
        KnownSize::Unknown.value() is None,
        KnownSize::Given(size).value() == Some(size),
        KnownSize::Announced(size).value() == Some(size),
        KnownSize::given(Some(size)) == KnownSize::Given(size),
        KnownSize::given(None) == KnownSize::Unknown,
{
}

/// Every event leaves a file in a state that a file can be in. In particular
/// the fast-forward that is under way never goes beyond the largest position.
pub proof fn law_step_keeps_wf<P, R>(file: FileModel<P, R>, window: u64, event: Event<P, R>)
    requires
        file.wf(window),
        file.allows(event),
    ensures
        file.step(window, event).wf(window),
{
}

/// Every course of events leaves a file in a state that a file can be in, and
/// with the template that it was created with.
pub proof fn law_run_keeps_wf<P, R>(
    file: FileModel<P, R>,
    window: u64,
    events: Seq<Event<P, R>>,
)
    requires
        file.wf(window),
        file.allows_all(window, events),
    ensures
        file.run(window, events).wf(window),
        file.run(window, events).template == file.template,
    decreases events.len(),
{
    if events.len() > 0 {
        law_run_keeps_wf(file, window, events.drop_last());
    }
}

/// A seek that is granted heads for the position that was asked for. The one
/// exception is a seek to the current position of an unfinished fast-forward,
/// which lets the fast-forward go on.
pub proof fn law_seek_heads_for_position<P, R>(
    file: FileModel<P, R>,
    window: u64,
    seek: SeekFrom,
)
    requires
        file.wf(window),
        file.resolved(seek) is Ok,
        file.state is Seeking ==> file.resolved(seek) != Ok::<u64, FileError>(file.position),
    ensures
        file.step(window, Event::Seek(seek)).target() == file.resolved(seek)->Ok_0,
{
}

/// Driving a file does not change the position that it heads for.
pub proof fn law_drive_keeps_target<P, R>(
    file: FileModel<P, R>,
    window: u64,
    events: Seq<Event<P, R>>,
)
    requires
        file.wf(window),
        file.allows_all(window, events),
        all_drive(events),
    ensures
        file.run(window, events).target() == file.target(),
    decreases events.len(),
{
    if events.len() > 0 {
        law_run_keeps_wf(file, window, events.drop_last());
        assert(all_drive(events.drop_last()));
        assert(events.last().is_drive());
        law_drive_keeps_target(file, window, events.drop_last());
    }
}

/// A seek gives the position that was asked for: whatever happens while the
/// file is driven after it, once the file is ready to be read its position is
/// the one of the seek.
pub proof fn law_seek_gives_position<P, R>(
    file: FileModel<P, R>,
    window: u64,
    seek: SeekFrom,
    events: Seq<Event<P, R>>,
)
    requires
        file.wf(window),
        file.resolved(seek) is Ok,
        file.state is Seeking ==> file.resolved(seek) != Ok::<u64, FileError>(file.position),
        file.step(window, Event::Seek(seek)).allows_all(window, events),
        all_drive(events),
        file.step(window, Event::Seek(seek)).run(window, events).state is Ready,
    ensures
        file.step(window, Event::Seek(seek)).run(window, events).position == file.resolved(
            seek,
        )->Ok_0,
{
    law_seek_heads_for_position(file, window, seek);
    law_drive_keeps_target(file.step(window, Event::Seek(seek)), window, events);
}

/// A seek is refused exactly for two reasons: it is relative to the end of a
/// file of unknown size, or it goes to a position before the first byte.
pub proof fn law_seek_errors<P, R>(file: FileModel<P, R>, seek: SeekFrom)
    ensures
        file.resolved(seek) == Err::<u64, FileError>(FileError::Unsupported) <==> seek is End
            && file.size.value() is None,
        file.resolved(seek) == Err::<u64, FileError>(FileError::InvalidInput) <==> match seek {
            SeekFrom::Start(_) => false,
            SeekFrom::End(delta) => file.size.value() is Some && file.size.value()->0 + delta < 0,
            SeekFrom::Current(delta) => file.position + delta < 0,
        },
        file.resolved(seek) matches Err(error) ==> error is Unsupported || error is InvalidInput,
{
}

/// A seek by no bytes is granted and changes nothing. So preparing a file
/// for being read keeps its position.
pub proof fn law_seek_nowhere<P, R>(file: FileModel<P, R>, window: u64)
    ensures
        file.resolved(SeekFrom::Current(0)) == Ok::<u64, FileError>(file.position),
        file.step(window, Event::Seek(SeekFrom::Current(0))) == file,
{
}

/// Seeking forward by no more than the window does not perform a new request:
/// as long as nothing but driving the file happens after it, the file reads on
/// in the response body that it has.
pub proof fn law_fast_forward_keeps_response<P, R>(
    file: FileModel<P, R>,
    window: u64,
    position: u64,
    events: Seq<Event<P, R>>,
)
    requires
        file.wf(window),
        file.state is Ready,
        file.position <= position <= file.position + window,
        file.after_seek(window, position).allows_all(window, events),
        all_drive(events),
    ensures
        ({
            let after = file.after_seek(window, position).run(window, events);
            &&& after.state is Ready || after.state is Seeking
            &&& after.size == file.size
        }),
    decreases events.len(),
{
    if events.len() > 0 {
        assert(all_drive(events.drop_last()));
        assert(events.last().is_drive());
        law_fast_forward_keeps_response(file, window, position, events.drop_last());
    }
}

/// Seeking backward, or forward by more than the window, or before there is a
/// response, asks for a new request, and that from the new position on.
pub proof fn law_other_seeks_request_anew<P, R>(
    file: FileModel<P, R>,
    window: u64,
    position: u64,
)
    requires
        position != file.position,
        position < file.position || position > file.position + window || file.state !is Ready,
    ensures
        file.after_seek(window, position).state is Initial,
        file.after_seek(window, position).position == position,
{
}

/// Driving a file comes to an end: sending the request, the arrival of the
/// response and every read of a fast-forward bring the file closer to being
/// ready to be read, and at distance zero it is.
pub proof fn law_drive_makes_progress<P, R>(file: FileModel<P, R>, window: u64, event: Event<P, R>)
    requires
        file.wf(window),
        file.allows(event),
        match event {
            Event::Sent(_) => file.state is Initial,
            Event::Arrived(_, _) => file.state is Pending,
            Event::Skipped(_) => true,
            _ => false,
        },
    ensures
        file.step(window, event).distance() < file.distance(),
        file.step(window, event).distance() == 0 <==> file.step(window, event).state is Ready,
{
}

/// A fast-forward that reads some bytes and then some more is where it would be
/// had it read all of them at once, as long as the bytes do not run out.
pub proof fn law_skips_add_up<P, R>(file: FileModel<P, R>, window: u64, first: nat, second: nat)
    requires
        file.wf(window),
        file.state matches State::Seeking(_, delta) && first + second <= delta,
        0 < first,
        0 < second,
    ensures
        file.after_skip(first).after_skip(second) == file.after_skip(first + second),
{
}

/// Reading some bytes and then some more moves the position as far as reading
/// all of them at once.
pub proof fn law_reads_add_up<P, R>(file: FileModel<P, R>, first: nat, second: nat)
    ensures
        file.after_read(first).after_read(second) == file.after_read(first + second),
{
}

/// Whether no response of a course of events announces a size.
pub open spec fn no_size_announced<P, R>(events: Seq<Event<P, R>>) -> bool {
    forall|i: int|
        0 <= i < events.len() ==> !((#[trigger] events[i]) matches Event::Arrived(Some(_), _))
}

/// Once the size of a file is known it stays known, and nothing but a response
/// that announces a size changes what is known of it.
pub proof fn law_size_stays_known<P, R>(
    file: FileModel<P, R>,
    window: u64,
    events: Seq<Event<P, R>>,
)
    ensures
        file.size.value() is Some ==> file.run(window, events).size.value() is Some,
        no_size_announced(events) ==> file.run(window, events).size == file.size,
    decreases events.len(),
{
    if events.len() > 0 {
        let earlier = events.drop_last();
        law_size_stays_known(file, window, earlier);
        if no_size_announced(events) {
            assert forall|i: int| 0 <= i < earlier.len() implies !((
            #[trigger] earlier[i]) matches Event::Arrived(Some(_), _)) by {
                assert(earlier[i] == events[i]);
            }
            assert(!(events[events.len() - 1] matches Event::Arrived(Some(_), _)));
        }
    }
}

/// If no size was given and the webserver announces none, then seeking relative
/// to the file end is refused as unsupported, however often it is tried.
pub proof fn law_unknown_end_is_unsupported<P, R>(
    file: FileModel<P, R>,
    window: u64,
    events: Seq<Event<P, R>>,
    delta: i64,
)
    requires
        file.size is Unknown,
        no_size_announced(events),
    ensures
        file.run(window, events).resolved(SeekFrom::End(delta)) == Err::<u64, FileError>(
            FileError::Unsupported,
        ),
{
    law_size_stays_known(file, window, events);
}

/// A size that was given when the file was created is overwritten by a response
/// that specifies one using the `Content-Length` header, and by no other.
/// Where no size was given, the size is that of the first response that
/// announces one.
pub proof fn law_given_size_is_overwritten<P, R>(
    file: FileModel<P, R>,
    window: u64,
    announced: Announcement,
    reader: R,
)
    requires
        file.state is Pending,
    ensures
        file.size is Given && announced.by_length ==> file.step(
            window,
            Event::Arrived(Some(announced), reader),
        ).size == KnownSize::Announced(announced.size),
        file.size is Given && !announced.by_length ==> file.step(
            window,
            Event::Arrived(Some(announced), reader),
        ).size == file.size,
        file.size is Unknown ==> file.step(window, Event::Arrived(Some(announced), reader)).size
            == KnownSize::Announced(announced.size),
        file.step(window, Event::Arrived(None, reader)).size == file.size,
{
}

/// The resource is taken to be of constant size: once a response announced a
/// size that was taken over, nothing changes it any more.
pub proof fn law_announced_size_is_kept<P, R>(
    file: FileModel<P, R>,
    window: u64,
    events: Seq<Event<P, R>>,
)
    requires
        file.size is Announced,
    ensures
        file.run(window, events).size == file.size,
    decreases events.len(),
{
    if events.len() > 0 {
        law_announced_size_is_kept(file, window, events.drop_last());
    }
}

/// An account of the response body that a file reads.
pub struct Account {
    /// The offset that was asked for when the request was sent.
    pub base: int,
    /// How many bytes of the body were read or skipped.
    pub consumed: nat,
    /// Whether a fast-forward came to the end of the body.
    pub ended: bool,
}

impl Account {
    /// The account after an event in a file.
    pub open spec fn step<P, R>(self, file: FileModel<P, R>, event: Event<P, R>) -> Self {
        match event {
            Event::Sent(_) => if file.state is Initial {
                Account { base: file.position as int, consumed: 0, ended: false }
            } else {
                self
            },
            Event::Skipped(count) => Account {
                consumed: self.consumed + count,
                ended: self.ended || count == 0,
                ..self
            },
            Event::Read(count) => Account { consumed: self.consumed + count, ..self },
            _ => self,
        }
    }

    /// The account after a course of events in a file.
    pub open spec fn run<P, R>(
        self,
        file: FileModel<P, R>,
        window: u64,
        events: Seq<Event<P, R>>,
    ) -> Self
        decreases events.len(),
    {
        if events.len() == 0 {
            self
        } else {
            self.run(file, window, events.drop_last()).step(
                file.run(window, events.drop_last()),
                events.last(),
            )
        }
    }

    /// Whether the position of a file is right: the next byte of the body is the
    /// byte of the resource at this position. While the response is awaited, the
    /// position is the offset that was asked for.
    pub open spec fn matches_position<P, R>(self, file: FileModel<P, R>) -> bool {
        &&& file.state is Pending ==> self.consumed == 0 && !self.ended
        &&& file.state !is Initial && !self.ended ==> file.position == self.base + self.consumed
    }
}

/// The position of a file is the position in the resource of the byte that is
/// read next. For any course of events, from the creation of the file on: the
/// position is the offset that the last request asked for, plus all bytes of
/// the response body that were read or skipped since.
/// This holds unless a fast-forward came to the end of the body, and as long
/// as no read goes beyond the largest position.
pub proof fn law_position_tracks_body<P, R>(
    file: FileModel<P, R>,
    window: u64,
    events: Seq<Event<P, R>>,
    account: Account,
)
    requires
        file.wf(window),
        file.state is Initial,
        file.allows_all(window, events),
        forall|i: int|
            0 <= i < events.len() ==> ((#[trigger] events[i]) matches Event::Read(count)
                ==> file.run(window, events.take(i)).position + count <= u64::MAX),
    ensures
        account.run(file, window, events).matches_position(file.run(window, events)),
    decreases events.len(),
{
    if events.len() > 0 {
        let earlier = events.drop_last();
        assert forall|i: int| 0 <= i < earlier.len() implies ((
        #[trigger] earlier[i]) matches Event::Read(count) ==> file.run(
            window,
            earlier.take(i),
        ).position + count <= u64::MAX) by {
            assert(earlier[i] == events[i]);
            assert(earlier.take(i) =~= events.take(i));
        }
        law_position_tracks_body(file, window, earlier, account);
        law_run_keeps_wf(file, window, earlier);
        assert(events.take(events.len() - 1) =~= earlier);
        assert(events[events.len() - 1] == events.last());
    }
}

/// The rest of a resource from a position on. At the end of the resource and
/// beyond it, this is nothing.
pub open spec fn rest_of(resource: Seq<u8>, position: int) -> Seq<u8> {
    if position <= resource.len() {
        resource.skip(position)
    } else {
        Seq::empty()
    }
}

impl Account {
    /// How many bytes of the body are left, if the resource has `total` bytes
    /// and the body is the rest of it from the requested offset on.
    pub open spec fn left(self, total: nat) -> int {
        if self.base <= total {
            total - self.base - self.consumed
        } else {
            -(self.consumed as int)
        }
    }

    /// Whether a read can give so many bytes of such a body: no more than are
    /// left. A fast-forward reads nothing only where nothing is left.
    pub open spec fn delivers<P, R>(self, total: nat, event: Event<P, R>) -> bool {
        match event {
            Event::Skipped(count) => count <= self.left(total) && (count == 0 ==> self.left(total)
                == 0),
            Event::Read(count) => count <= self.left(total),
            _ => true,
        }
    }

    /// Whether all reads of a course of events give bytes of such bodies.
    pub open spec fn delivers_all<P, R>(
        self,
        file: FileModel<P, R>,
        window: u64,
        total: nat,
        events: Seq<Event<P, R>>,
    ) -> bool
        decreases events.len(),
    {
        events.len() > 0 ==> {
            &&& self.delivers_all(file, window, total, events.drop_last())
            &&& self.run(file, window, events.drop_last()).delivers(total, events.last())
        }
    }

    /// Whether the position of a file is right, within the resource and beyond
    /// its end: it is that of the next byte of the body, and it is at the end
    /// or beyond it if a fast-forward came to the end of the body.
    pub open spec fn tracks<P, R>(self, file: FileModel<P, R>, total: nat) -> bool {
        file.state !is Initial ==> {
            &&& 0 <= self.base
            &&& 0 <= self.left(total)
            &&& if self.ended {
                &&& self.left(total) == 0
                &&& file.state !is Pending
                &&& file.position >= self.base + self.consumed
            } else {
                &&& file.state is Pending ==> self.consumed == 0
                &&& file.position == self.base + self.consumed
            }
        }
    }
}

/// What is left of the response body is the rest of the resource from the
/// current position on, and nothing at the end of the resource and beyond it.
/// This holds for any course of events from the creation of the file on,
/// however it got to its position: by a new request, by a fast-forward, also
/// one that came to the end of the body, or by reading. It rests on a webserver
/// that answers every request with the rest of the resource from the requested
/// offset on.
pub proof fn law_body_is_rest_of_resource<P, R>(
    file: FileModel<P, R>,
    window: u64,
    events: Seq<Event<P, R>>,
    account: Account,
    resource: Seq<u8>,
)
    requires
        file.wf(window),
        file.state is Initial,
        file.allows_all(window, events),
        account.delivers_all(file, window, resource.len(), events),
        resource.len() <= u64::MAX,
    ensures
        ({
            let after = file.run(window, events);
            let account = account.run(file, window, events);
            &&& account.tracks(after, resource.len())
            &&& after.state !is Initial ==> rest_of(resource, account.base).skip(
                account.consumed as int,
            ) == rest_of(resource, after.position as int)
        }),
    decreases events.len(),
{
    if events.len() > 0 {
        law_body_is_rest_of_resource(file, window, events.drop_last(), account, resource);
        law_run_keeps_wf(file, window, events.drop_last());
    }
}

/// What is read at a position is the content of the resource at this position:
/// the next `count` bytes of the response body are the bytes of the resource
/// from the current position on. At the end of the resource and beyond it,
/// there are none.
pub proof fn law_read_gives_content_at_position<P, R>(
    file: FileModel<P, R>,
    window: u64,
    events: Seq<Event<P, R>>,
    account: Account,
    resource: Seq<u8>,
    count: nat,
)
    requires
        file.wf(window),
        file.state is Initial,
        file.allows_all(window, events),
        account.delivers_all(file, window, resource.len(), events),
        resource.len() <= u64::MAX,
        file.run(window, events).state is Ready,
        account.run(file, window, events).delivers(resource.len(), Event::<P, R>::Read(count)),
    ensures
        ({
            let position = file.run(window, events).position as int;
            let account = account.run(file, window, events);
            let body = rest_of(resource, account.base);
            let start = account.consumed as int;
            &&& position < resource.len() ==> {
                &&& position + count <= resource.len()
                &&& body.subrange(start, start + count) == resource.subrange(
                    position,
                    position + count,
                )
            }
            &&& position >= resource.len() ==> count == 0 && start == body.len()
        }),
{
    law_body_is_rest_of_resource(file, window, events, account, resource);
}

/// A read of a fast-forward gives no bytes only where none are left in the body:
/// a reader that is asked for the bytes which the fast-forward asks for, and
/// gives some of them if there are any, does what the fast-forward counts on.
pub proof fn law_skip_is_empty_only_at_the_end<P, R>(
    file: FileModel<P, R>,
    window: u64,
    buffer: usize,
    account: Account,
    total: nat,
    count: nat,
)
    requires
        file.wf(window),
        file.state is Seeking,
        buffer > 0,
        count <= skip_len(file.state->Seeking_1, buffer),
        count <= account.left(total),
        count == 0 ==> skip_len(file.state->Seeking_1, buffer) == 0 || account.left(total) == 0,
    ensures
        file.allows(Event::Skipped(count)),
        account.delivers(total, Event::<P, R>::Skipped(count)),
{
}

/// A course of events that goes on after another one goes on in the file that
/// the other one left.
proof fn lemma_run_goes_on<P, R>(
    file: FileModel<P, R>,
    window: u64,
    earlier: Seq<Event<P, R>>,
    later: Seq<Event<P, R>>,
)
    ensures
        file.run(window, earlier + later) == file.run(window, earlier).run(window, later),
        file.allows_all(window, earlier + later) ==> file.allows_all(window, earlier) && file.run(
            window,
            earlier,
        ).allows_all(window, later),
    decreases later.len(),
{
    let events = earlier + later;
    if later.len() == 0 {
        assert(events =~= earlier);
    } else {
        assert(events.drop_last() =~= earlier + later.drop_last());
        assert(events.last() == later.last());
        lemma_run_goes_on(file, window, earlier, later.drop_last());
    }
}

/// Seeking to a position and reading gives the content of the resource at this
/// position: whatever happened to the file before, and however it is driven
/// after the seek, once it is ready to be read it is at the position, and what
/// is left of the response body is the rest of the resource from there on.
pub proof fn law_seek_then_read_gives_content<P, R>(
    file: FileModel<P, R>,
    window: u64,
    earlier: Seq<Event<P, R>>,
    position: u64,
    later: Seq<Event<P, R>>,
    account: Account,
    resource: Seq<u8>,
)
    requires
        file.wf(window),
        file.state is Initial,
        resource.len() <= u64::MAX,
        all_drive(later),
        file.run(window, earlier).state is Seeking ==> file.run(window, earlier).position
            != position,
        ({
            let events = earlier.push(Event::Seek(SeekFrom::Start(position))) + later;
            &&& file.allows_all(window, events)
            &&& account.delivers_all(file, window, resource.len(), events)
            &&& file.run(window, events).state is Ready
        }),
    ensures
        ({
            let events = earlier.push(Event::Seek(SeekFrom::Start(position))) + later;
            let account = account.run(file, window, events);
            &&& file.run(window, events).position == position
            &&& rest_of(resource, account.base).skip(account.consumed as int) == rest_of(
                resource,
                position as int,
            )
        }),
{
    let seek = SeekFrom::Start(position);
    let sought = earlier.push(Event::Seek(seek));
    assert(sought.drop_last() =~= earlier);
    lemma_run_goes_on(file, window, sought, later);
    law_run_keeps_wf(file, window, earlier);
    law_seek_gives_position(file.run(window, earlier), window, seek, later);
    law_body_is_rest_of_resource(file, window, sought + later, account, resource);
}

/// After a reset, reading goes on where it was: once the file is ready to be
/// read again it is at the position before the reset, and what is left of the
/// response body is the rest of the resource from there on.
pub proof fn law_reset_then_read_goes_on<P, R>(
    file: FileModel<P, R>,
    window: u64,
    earlier: Seq<Event<P, R>>,
    later: Seq<Event<P, R>>,
    account: Account,
    resource: Seq<u8>,
)
    requires
        file.wf(window),
        file.state is Initial,
        resource.len() <= u64::MAX,
        all_drive(later),
        ({
            let events = earlier.push(Event::Reset) + later;
            &&& file.allows_all(window, events)
            &&& account.delivers_all(file, window, resource.len(), events)
            &&& file.run(window, events).state is Ready
        }),
    ensures
        ({
            let events = earlier.push(Event::Reset) + later;
            let position = file.run(window, earlier).position;
            let account = account.run(file, window, events);
            &&& file.run(window, events).position == position
            &&& rest_of(resource, account.base).skip(account.consumed as int) == rest_of(
                resource,
                position as int,
            )
        }),
{
    let restarted = earlier.push(Event::Reset);
    assert(restarted.drop_last() =~= earlier);
    lemma_run_goes_on(file, window, restarted, later);
    law_run_keeps_wf(file, window, restarted);
    law_drive_keeps_target(file.run(window, restarted), window, later);
    law_body_is_rest_of_resource(file, window, restarted + later, account, resource);
}

/// Where the first byte was asked for, a response with the whole resource is as
/// good as one with the requested part. Anywhere else the whole resource means
/// that the webserver does not support range requests. All other statuses are
/// failures.
pub proof fn law_accepted_statuses(offset: u64, status: u16)
    ensures
        status_verdict(offset, status) is Ok <==> status == PARTIAL_CONTENT || (status == OK
            && offset == 0),
        status_verdict(offset, status) == Err::<(), FileError>(FileError::NotSeekable) <==> status
            == OK && offset != 0,
{
}

/// A response is taken if its status is `206 Partial Content`, or `200 OK` where
/// the first byte was asked for, unless the size that it announces is beyond
/// all positions. `200 OK` anywhere else is an error of its own kind, and
/// everything else is a failed http request.
pub proof fn law_response_outcomes(offset: u64, response: Response)
    ensures
        response_verdict(offset, response) is Ok <==> {
            &&& status_verdict(offset, response_status(response)) is Ok
            &&& size_fits(response_size(offset, response))
        },
        response_verdict(offset, response) matches Err(error) ==> error.spec_kind() == if offset
            != 0 && response_status(response) == OK {
            ErrorKind::NotSeekable
        } else {
            ErrorKind::Other
        },
{
}

/// The requests for different parts of a resource of constant size are
/// consistent: whether the response announces the whole size or the length of
/// the rest from the offset on, the size is the same, and the same as the one
/// of a response with the whole resource.
pub proof fn law_announced_sizes_agree(total: u64, offset: u64, length: Option<u64>)
    requires
        offset <= total,
    ensures
        announced_size(offset, PARTIAL_CONTENT, Some(total), length) == Some(total as int),
        announced_size(offset, PARTIAL_CONTENT, None, Some((total - offset) as u64)) == Some(
            total as int,
        ),
        announced_size(0, OK, None, Some(total)) == Some(total as int),
{
}

/// The `Range` header says where the request starts: the number between
/// `bytes=` and `-` is the offset.
pub proof fn law_range_value_denotes_offset(offset: u64)
    ensures
        ({
            let value = range_value(offset);
            &&& value.len() >= 8
            &&& value.take(6) == "bytes="@
            &&& value.last() == '-'
            &&& parsed_u64(encode_utf8(value.subrange(6, value.len() - 1))) == Some(offset)
        }),
{
    reveal_strlit("bytes=");
    reveal_strlit("-");
    let digits = decimal_text(offset as nat);
    let value = range_value(offset);
    lemma_decimal_text_digits(offset as nat);
    law_decimal_round_trip(offset);
    assert(value.subrange(6, value.len() - 1) =~= digits);
    assert(value.take(6) =~= "bytes="@);
}

/// Requests for different offsets have different `Range` headers.
pub proof fn law_range_value_injective(offset: u64, other: u64)
    ensures
        range_value(offset) == range_value(other) ==> offset == other,
{
    law_range_value_denotes_offset(offset);
    law_range_value_denotes_offset(other);
}

/// The part after the first slash is found, whatever stands before it.
pub proof fn lemma_after_slash(before: Seq<u8>, after: Seq<u8>)
    requires
        forall|i: int| 0 <= i < before.len() ==> #[trigger] before[i] != 0x2f,
    ensures
        after_slash(before + seq![0x2fu8] + after) == Some(after),
    decreases before.len(),
{
    let text = before + seq![0x2fu8] + after;
    if before.len() == 0 {
        assert(text.skip(1) =~= after);
    } else {
        let rest = before.skip(1);
        assert forall|i: int| 0 <= i < rest.len() implies #[trigger] rest[i] != 0x2f by {
            assert(rest[i] == before[i + 1]);
        }
        lemma_after_slash(rest, after);
        assert(text[0] == before[0]);
        assert(text.skip(1) =~= rest + seq![0x2fu8] + after);
    }
}

/// A `Content-Range` field that ends in a slash and the size of the resource
/// announces that size, whatever range it gives before the slash.
pub proof fn law_content_range_total(before: Seq<u8>, total: u64)
    requires
        forall|i: int| 0 <= i < before.len() ==> #[trigger] before[i] != 0x2f,
    ensures
        range_text_total(before + seq![0x2fu8] + encode_utf8(decimal_text(total as nat))) == Some(
            total,
        ),
{
    lemma_after_slash(before, encode_utf8(decimal_text(total as nat)));
    law_decimal_round_trip(total);
}

} // verus!
