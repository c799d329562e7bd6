//! The three records that slots hold, and their byte layout.

use crate::address::{address_of, address_of_bytes, address_of_view, Address};
use crate::codec::{
    bool_at, bool_bytes, bool_round_trip, get_bool, get_text, get_u16, get_u8, holds_at,
    holds_at_each, holds_at_split, holds_at_start, put_bool, put_bytes, put_text, put_u16,
    put_u8, text_at, text_bytes, text_bytes_len, text_fits, text_len, text_read_is_written,
    text_round_trip, text_size, u16_at, u16_bytes, u16_digits, u16_round_trip, u8_at,
    u8_round_trip,
};
use crate::error::SpotSurfError;
use vstd::prelude::*;
use vstd::utf8::is_ascii_chars_encode_utf8;

verus! {

// ---------------------------------------------------------------------------
// Tags
// ---------------------------------------------------------------------------
/// The tag at the start of a profile record.
pub open spec fn profile_tag() -> Seq<char> {
    "spot_surf_info"@
}

/// The tag at the start of a counter record.
pub open spec fn counter_tag() -> Seq<char> {
    "counter"@
}

/// The tag at the start of a comment record.
pub open spec fn comment_tag() -> Seq<char> {
    "reply"@
}

/// The three tags are written in eighteen, eleven and nine bytes.
pub proof fn tag_lengths()
    ensures
        text_len(profile_tag()) == 18,
        text_len(counter_tag()) == 11,
        text_len(comment_tag()) == 9,
        text_fits(profile_tag()),
        text_fits(counter_tag()),
        text_fits(comment_tag()),
{
    reveal_strlit("spot_surf_info");
    reveal_strlit("counter");
    reveal_strlit("reply");
    is_ascii_chars_encode_utf8(profile_tag());
    is_ascii_chars_encode_utf8(counter_tag());
    is_ascii_chars_encode_utf8(comment_tag());
}

// ---------------------------------------------------------------------------
// Profile record
// ---------------------------------------------------------------------------
/// The review that a contributor keeps of a surf spot.
#[derive(Clone, Debug, PartialEq, Eq)]
pub struct SpotSurfInfo {
    pub discriminator: String,
    pub is_init: bool,
    pub name: String,
    pub rate: u16,
    pub review: String,
}

/// A profile record as a mathematical value.
pub struct SpotSurfInfoView {
    pub discriminator: Seq<char>,
    pub is_init: bool,
    pub name: Seq<char>,
    pub rate: u16,
    pub review: Seq<char>,
}

impl View for SpotSurfInfo {
    type V = SpotSurfInfoView;

    open spec fn view(&self) -> SpotSurfInfoView {
        SpotSurfInfoView {
            discriminator: self.discriminator@,
            is_init: self.is_init,
            name: self.name@,
            rate: self.rate,
            review: self.review@,
        }
    }
}

impl SpotSurfInfoView {
    /// Whether each string of the record is short enough to be written.
    pub open spec fn encodable(self) -> bool {
        text_fits(self.discriminator) && text_fits(self.name) && text_fits(self.review)
    }

    /// The bytes of the record: tag, flag, name, rating, review.
    pub open spec fn encoding(self) -> Seq<u8> {
        text_bytes(self.discriminator) + bool_bytes(self.is_init) + text_bytes(self.name)
            + u16_bytes(self.rate) + text_bytes(self.review)
    }

    /// The number of bytes of [`Self::encoding`].
    pub open spec fn encoded_len(self) -> nat {
        text_len(self.discriminator) + 1 + text_len(self.name) + 2 + text_len(self.review)
    }

    /// The record that the start of `bytes` holds; what follows it is not
    /// looked at.
    pub open spec fn decoding(bytes: Seq<u8>) -> Option<SpotSurfInfoView> {
        match text_at(bytes, 0) {
            Some((discriminator, flag_pos)) => match (
                bool_at(bytes, flag_pos),
                text_at(bytes, flag_pos + 1),
            ) {
                (Some(is_init), Some((name, rate_pos))) => match (
                    u16_at(bytes, rate_pos),
                    text_at(bytes, rate_pos + 2),
                ) {
                    (Some(rate), Some((review, _))) => Some(
                        SpotSurfInfoView { discriminator, is_init, name, rate, review },
                    ),
                    _ => None,
                },
                _ => None,
            },
            None => None,
        }
    }

    /// A record that can be written is read back from its bytes, whatever
    /// follows them.
    pub proof fn round_trip(self, tail: Seq<u8>)
        requires
            self.encodable(),
        ensures
            Self::decoding(self.encoding() + tail) == Some(self),
            self.encoding().len() == self.encoded_len(),
    {
        let bytes = self.encoding() + tail;
        let tag = text_bytes(self.discriminator);
        let flag = bool_bytes(self.is_init);
        let name = text_bytes(self.name);
        let rate = u16_bytes(self.rate);
        let review = text_bytes(self.review);
        let flag_pos = tag.len() as int;
        let name_pos = flag_pos + 1;
        let rate_pos = name_pos + name.len();
        let review_pos = rate_pos + 2;
        holds_at_each(tag, flag, name, rate, review, tail);
        text_bytes_len(self.discriminator);
        text_bytes_len(self.name);
        text_bytes_len(self.review);
        text_round_trip(bytes, 0, self.discriminator);
        bool_round_trip(bytes, flag_pos, self.is_init);
        text_round_trip(bytes, name_pos, self.name);
        u16_round_trip(bytes, rate_pos, self.rate);
        text_round_trip(bytes, review_pos, self.review);
    }
}

impl SpotSurfInfoView {
    /// A record that was read stands at the start of the bytes it was read
    /// from, in the form in which it would be written.
    pub proof fn read_is_written(bytes: Seq<u8>)
        requires
            Self::decoding(bytes) is Some,
        ensures
            Self::decoding(bytes)->0.encodable(),
            holds_at(bytes, 0, Self::decoding(bytes)->0.encoding()),
            Self::decoding(bytes)->0.encoded_len() <= bytes.len(),
    {
        let record = Self::decoding(bytes)->0;
        text_read_is_written(bytes, 0);
        text_bytes_len(record.discriminator);
        let flag_pos = text_len(record.discriminator) as int;
        text_read_is_written(bytes, flag_pos + 1);
        text_bytes_len(record.name);
        let rate_pos = flag_pos + 1 + text_len(record.name);
        text_read_is_written(bytes, rate_pos + 2);
        text_bytes_len(record.review);
        let end = rate_pos + 2 + text_len(record.review);
        u16_digits(bytes[rate_pos], bytes[rate_pos + 1]);
        assert(bytes.subrange(rate_pos, rate_pos + 2) =~= u16_bytes(record.rate));
        assert(bytes.subrange(0, end) =~= bytes.subrange(0, flag_pos) + bool_bytes(record.is_init)
            + bytes.subrange(flag_pos + 1, rate_pos) + bytes.subrange(rate_pos, rate_pos + 2)
            + bytes.subrange(rate_pos + 2, end));
    }
}

impl SpotSurfInfo {
    /// Whether the record has been written by a creation.
    pub fn is_initialized(&self) -> (initialized: bool)
        ensures
            initialized == self@.is_init,
    {
        self.is_init
    }

    /// The number of bytes that [`Self::encode`] writes; `None` where the
    /// record cannot be written or the number cannot be held.
    pub fn encoded_len(&self) -> (len: Option<usize>)
        ensures
            len is Some <==> self@.encodable() && self@.encoded_len() <= usize::MAX,
            len matches Some(n) ==> n == self@.encoded_len(),
    {
        let tag = text_size(self.discriminator.as_str());
        let name = text_size(self.name.as_str());
        let review = text_size(self.review.as_str());
        match (tag, name, review) {
            (Some(tag), Some(name), Some(review)) => match tag.checked_add(name) {
                Some(sum) => match sum.checked_add(review) {
                    Some(sum) => sum.checked_add(3),
                    None => None,
                },
                None => None,
            },
            _ => None,
        }
    }

    /// Writes the record as bytes; `None` where one of its strings is too
    /// long for a four-byte length.
    pub fn encode(&self) -> (bytes: Option<Vec<u8>>)
        ensures
            bytes is Some <==> self@.encodable(),
            bytes matches Some(b) ==> b@ == self@.encoding() && b@.len() == self@.encoded_len(),
    {
        let mut out: Vec<u8> = Vec::new();
        if !put_text(&mut out, self.discriminator.as_str()) {
            return None;
        }
        put_bool(&mut out, self.is_init);
        if !put_text(&mut out, self.name.as_str()) {
            return None;
        }
        put_u16(&mut out, self.rate);
        if !put_text(&mut out, self.review.as_str()) {
            return None;
        }
        proof {
            text_bytes_len(self.discriminator@);
            text_bytes_len(self.name@);
            text_bytes_len(self.review@);
        }
        assert(out@ =~= self@.encoding());
        Some(out)
    }

    /// Reads a record from the start of `bytes` and ignores what follows it.
    pub fn decode(bytes: &[u8]) -> (record: Result<SpotSurfInfo, SpotSurfError>)
        ensures
            match record {
                Ok(r) => SpotSurfInfoView::decoding(bytes@) == Some(r@),
                Err(e) => e == SpotSurfError::DecodeError && SpotSurfInfoView::decoding(bytes@)
                    is None,
            },
    {
        let (discriminator, flag_pos) = match get_text(bytes, 0) {
            Some(found) => found,
            None => {
                return Err(SpotSurfError::DecodeError);
            },
        };
        let is_init = match get_bool(bytes, flag_pos) {
            Some(flag) => flag,
            None => {
                return Err(SpotSurfError::DecodeError);
            },
        };
        let (name, rate_pos) = match get_text(bytes, flag_pos + 1) {
            Some(found) => found,
            None => {
                return Err(SpotSurfError::DecodeError);
            },
        };
        let rate = match get_u16(bytes, rate_pos) {
            Some(rate) => rate,
            None => {
                return Err(SpotSurfError::DecodeError);
            },
        };
        let review = match get_text(bytes, rate_pos + 2) {
            Some((review, _)) => review,
            None => {
                return Err(SpotSurfError::DecodeError);
            },
        };
        Ok(SpotSurfInfo { discriminator, is_init, name, rate, review })
    }
}

// ---------------------------------------------------------------------------
// Comment counter record
// ---------------------------------------------------------------------------
/// The number of comments that a profile has received.
#[derive(Clone, Debug, PartialEq, Eq)]
pub struct CommentCounter {
    pub discriminator: String,
    pub is_init: bool,
    pub counter: u8,
}

/// A counter record as a mathematical value.
pub struct CommentCounterView {
    pub discriminator: Seq<char>,
    pub is_init: bool,
    pub counter: u8,
}

impl View for CommentCounter {
    type V = CommentCounterView;

    open spec fn view(&self) -> CommentCounterView {
        CommentCounterView {
            discriminator: self.discriminator@,
            is_init: self.is_init,
            counter: self.counter,
        }
    }
}

impl CommentCounterView {
    /// Whether the tag of the record is short enough to be written.
    pub open spec fn encodable(self) -> bool {
        text_fits(self.discriminator)
    }

    /// The bytes of the record: tag, flag, count.
    pub open spec fn encoding(self) -> Seq<u8> {
        text_bytes(self.discriminator) + bool_bytes(self.is_init) + seq![self.counter]
    }

    /// The number of bytes of [`Self::encoding`].
    pub open spec fn encoded_len(self) -> nat {
        text_len(self.discriminator) + 1 + 1
    }

    /// The record that the start of `bytes` holds; what follows it is not
    /// looked at.
    pub open spec fn decoding(bytes: Seq<u8>) -> Option<CommentCounterView> {
        match text_at(bytes, 0) {
            Some((discriminator, flag_pos)) => match (
                bool_at(bytes, flag_pos),
                u8_at(bytes, flag_pos + 1),
            ) {
                (Some(is_init), Some(counter)) => Some(
                    CommentCounterView { discriminator, is_init, counter },
                ),
                _ => None,
            },
            None => None,
        }
    }

    /// A record that can be written is read back from its bytes, whatever
    /// follows them.
    pub proof fn round_trip(self, tail: Seq<u8>)
        requires
            self.encodable(),
        ensures
            Self::decoding(self.encoding() + tail) == Some(self),
            self.encoding().len() == self.encoded_len(),
    {
        let bytes = self.encoding() + tail;
        let tag = text_bytes(self.discriminator);
        let flag = bool_bytes(self.is_init);
        holds_at_start(self.encoding(), tail);
        holds_at_split(bytes, 0, tag + flag, seq![self.counter]);
        holds_at_split(bytes, 0, tag, flag);
        text_bytes_len(self.discriminator);
        text_round_trip(bytes, 0, self.discriminator);
        bool_round_trip(bytes, tag.len() as int, self.is_init);
        u8_round_trip(bytes, (tag.len() + 1) as int, self.counter);
    }
}

impl CommentCounterView {
    /// A record that was read stands at the start of the bytes it was read
    /// from, in the form in which it would be written.
    pub proof fn read_is_written(bytes: Seq<u8>)
        requires
            Self::decoding(bytes) is Some,
        ensures
            Self::decoding(bytes)->0.encodable(),
            holds_at(bytes, 0, Self::decoding(bytes)->0.encoding()),
            Self::decoding(bytes)->0.encoded_len() <= bytes.len(),
    {
        let record = Self::decoding(bytes)->0;
        text_read_is_written(bytes, 0);
        text_bytes_len(record.discriminator);
        let flag_pos = text_len(record.discriminator) as int;
        assert(bytes.subrange(0, flag_pos + 2) =~= bytes.subrange(0, flag_pos) + bool_bytes(
            record.is_init,
        ) + seq![record.counter]);
    }
}

impl CommentCounter {
    /// Whether the record has been written by a creation.
    pub fn is_initialized(&self) -> (initialized: bool)
        ensures
            initialized == self@.is_init,
    {
        self.is_init
    }

    /// The number of bytes that [`Self::encode`] writes; `None` where the
    /// record cannot be written or the number cannot be held.
    pub fn encoded_len(&self) -> (len: Option<usize>)
        ensures
            len is Some <==> self@.encodable() && self@.encoded_len() <= usize::MAX,
            len matches Some(n) ==> n == self@.encoded_len(),
    {
        match text_size(self.discriminator.as_str()) {
            Some(tag) => tag.checked_add(2),
            None => None,
        }
    }

    /// Writes the record as bytes; `None` where its tag is too long for a
    /// four-byte length.
    pub fn encode(&self) -> (bytes: Option<Vec<u8>>)
        ensures
            bytes is Some <==> self@.encodable(),
            bytes matches Some(b) ==> b@ == self@.encoding() && b@.len() == self@.encoded_len(),
    {
        let mut out: Vec<u8> = Vec::new();
        if !put_text(&mut out, self.discriminator.as_str()) {
            return None;
        }
        put_bool(&mut out, self.is_init);
        put_u8(&mut out, self.counter);
        proof {
            text_bytes_len(self.discriminator@);
        }
        assert(out@ =~= self@.encoding());
        Some(out)
    }

    /// Reads a record from the start of `bytes` and ignores what follows it.
    pub fn decode(bytes: &[u8]) -> (record: Result<CommentCounter, SpotSurfError>)
        ensures
            match record {
                Ok(r) => CommentCounterView::decoding(bytes@) == Some(r@),
                Err(e) => e == SpotSurfError::DecodeError && CommentCounterView::decoding(bytes@)
                    is None,
            },
    {
        let (discriminator, flag_pos) = match get_text(bytes, 0) {
            Some(found) => found,
            None => {
                return Err(SpotSurfError::DecodeError);
            },
        };
        let is_init = match get_bool(bytes, flag_pos) {
            Some(flag) => flag,
            None => {
                return Err(SpotSurfError::DecodeError);
            },
        };
        let counter = match get_u8(bytes, flag_pos + 1) {
            Some(counter) => counter,
            None => {
                return Err(SpotSurfError::DecodeError);
            },
        };
        Ok(CommentCounter { discriminator, is_init, counter })
    }
}

// ---------------------------------------------------------------------------
// Comment record
// ---------------------------------------------------------------------------
/// One comment under a profile.
#[derive(Clone, Debug, PartialEq, Eq)]
pub struct Comment {
    pub discriminator: String,
    pub is_init: bool,
    pub spot_info: Address,
    pub comment: String,
}

/// A comment record as a mathematical value.
pub struct CommentView {
    pub discriminator: Seq<char>,
    pub is_init: bool,
    pub spot_info: Address,
    pub comment: Seq<char>,
}

impl View for Comment {
    type V = CommentView;

    open spec fn view(&self) -> CommentView {
        CommentView {
            discriminator: self.discriminator@,
            is_init: self.is_init,
            spot_info: self.spot_info,
            comment: self.comment@,
        }
    }
}

/// The address whose thirty-two bytes stand at `pos`.
pub open spec fn address_at(bytes: Seq<u8>, pos: int) -> Option<Address> {
    if 0 <= pos && pos + 32 <= bytes.len() {
        Some(address_of(bytes.subrange(pos, pos + 32)))
    } else {
        None
    }
}

impl CommentView {
    /// Whether each string of the record is short enough to be written.
    pub open spec fn encodable(self) -> bool {
        text_fits(self.discriminator) && text_fits(self.comment)
    }

    /// The bytes of the record: tag, flag, profile address, text.
    pub open spec fn encoding(self) -> Seq<u8> {
        text_bytes(self.discriminator) + bool_bytes(self.is_init) + self.spot_info@ + text_bytes(
            self.comment,
        )
    }

    /// The number of bytes of [`Self::encoding`].
    pub open spec fn encoded_len(self) -> nat {
        text_len(self.discriminator) + 1 + 32 + text_len(self.comment)
    }

    /// The record that the start of `bytes` holds; what follows it is not
    /// looked at.
    pub open spec fn decoding(bytes: Seq<u8>) -> Option<CommentView> {
        match text_at(bytes, 0) {
            Some((discriminator, flag_pos)) => match (
                bool_at(bytes, flag_pos),
                address_at(bytes, flag_pos + 1),
                text_at(bytes, flag_pos + 33),
            ) {
                (Some(is_init), Some(spot_info), Some((comment, _))) => Some(
                    CommentView { discriminator, is_init, spot_info, comment },
                ),
                _ => None,
            },
            None => None,
        }
    }

    /// A record that can be written is read back from its bytes, whatever
    /// follows them.
    pub proof fn round_trip(self, tail: Seq<u8>)
        requires
            self.encodable(),
        ensures
            Self::decoding(self.encoding() + tail) == Some(self),
            self.encoding().len() == self.encoded_len(),
    {
        let bytes = self.encoding() + tail;
        let tag = text_bytes(self.discriminator);
        let flag = bool_bytes(self.is_init);
        let profile = self.spot_info@;
        let text = text_bytes(self.comment);
        holds_at_start(self.encoding(), tail);
        holds_at_split(bytes, 0, tag + flag + profile, text);
        holds_at_split(bytes, 0, tag + flag, profile);
        holds_at_split(bytes, 0, tag, flag);
        text_bytes_len(self.discriminator);
        text_bytes_len(self.comment);
        text_round_trip(bytes, 0, self.discriminator);
        bool_round_trip(bytes, tag.len() as int, self.is_init);
        address_of_view(self.spot_info);
        text_round_trip(bytes, (tag.len() + 33) as int, self.comment);
    }
}

impl CommentView {
    /// A record that was read stands at the start of the bytes it was read
    /// from, in the form in which it would be written.
    pub proof fn read_is_written(bytes: Seq<u8>)
        requires
            Self::decoding(bytes) is Some,
        ensures
            Self::decoding(bytes)->0.encodable(),
            holds_at(bytes, 0, Self::decoding(bytes)->0.encoding()),
            Self::decoding(bytes)->0.encoded_len() <= bytes.len(),
    {
        let record = Self::decoding(bytes)->0;
        text_read_is_written(bytes, 0);
        text_bytes_len(record.discriminator);
        let flag_pos = text_len(record.discriminator) as int;
        text_read_is_written(bytes, flag_pos + 33);
        text_bytes_len(record.comment);
        let end = flag_pos + 33 + text_len(record.comment);
        let profile = bytes.subrange(flag_pos + 1, flag_pos + 33);
        address_of_bytes(profile);
        assert(bytes.subrange(0, end) =~= bytes.subrange(0, flag_pos) + bool_bytes(record.is_init)
            + profile + bytes.subrange(flag_pos + 33, end));
    }
}

impl Comment {
    /// Whether the record has been written by a creation.
    pub fn is_initialized(&self) -> (initialized: bool)
        ensures
            initialized == self@.is_init,
    {
        self.is_init
    }

    /// The number of bytes that [`Self::encode`] writes; `None` where the
    /// record cannot be written or the number cannot be held.
    pub fn encoded_len(&self) -> (len: Option<usize>)
        ensures
            len is Some <==> self@.encodable() && self@.encoded_len() <= usize::MAX,
            len matches Some(n) ==> n == self@.encoded_len(),
    {
        let tag = text_size(self.discriminator.as_str());
        let comment = text_size(self.comment.as_str());
        match (tag, comment) {
            (Some(tag), Some(comment)) => match tag.checked_add(comment) {
                Some(sum) => sum.checked_add(33),
                None => None,
            },
            _ => None,
        }
    }

    /// Writes the record as bytes; `None` where one of its strings is too
    /// long for a four-byte length.
    pub fn encode(&self) -> (bytes: Option<Vec<u8>>)
        ensures
            bytes is Some <==> self@.encodable(),
            bytes matches Some(b) ==> b@ == self@.encoding() && b@.len() == self@.encoded_len(),
    {
        let mut out: Vec<u8> = Vec::new();
        if !put_text(&mut out, self.discriminator.as_str()) {
            return None;
        }
        put_bool(&mut out, self.is_init);
        put_bytes(&mut out, self.spot_info.bytes.as_slice());
        if !put_text(&mut out, self.comment.as_str()) {
            return None;
        }
        proof {
            text_bytes_len(self.discriminator@);
            text_bytes_len(self.comment@);
        }
        assert(out@ =~= self@.encoding());
        Some(out)
    }

    /// Reads a record from the start of `bytes` and ignores what follows it.
    pub fn decode(bytes: &[u8]) -> (record: Result<Comment, SpotSurfError>)
        ensures
            match record {
                Ok(r) => CommentView::decoding(bytes@) == Some(r@),
                Err(e) => e == SpotSurfError::DecodeError && CommentView::decoding(bytes@)
                    is None,
            },
    {
        let (discriminator, flag_pos) = match get_text(bytes, 0) {
            Some(found) => found,
            None => {
                return Err(SpotSurfError::DecodeError);
            },
        };
        let is_init = match get_bool(bytes, flag_pos) {
            Some(flag) => flag,
            None => {
                return Err(SpotSurfError::DecodeError);
            },
        };
        let spot_info = match Address::read(bytes, flag_pos + 1) {
            Some(address) => address,
            None => {
                return Err(SpotSurfError::DecodeError);
            },
        };
        proof {
            address_of_view(spot_info);
        }
        let comment = match get_text(bytes, flag_pos + 33) {
            Some((comment, _)) => comment,
            None => {
                return Err(SpotSurfError::DecodeError);
            },
        };
        Ok(Comment { discriminator, is_init, spot_info, comment })
    }
}

} // verus!
