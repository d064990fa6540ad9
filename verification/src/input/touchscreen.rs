//! Touchscreen input device interface.
//!
//! Mirrors the NuttX touchscreen driver contract: a device node is opened
//! read-only and non-blocking, each read yields one fixed-size sample record,
//! and a status byte of flag bits says which fields of a touch point are
//! valid. The system calls themselves are the caller's; this module decides
//! what each outcome means and decodes the record bytes.

use vstd::prelude::*;

use crate::bytes::{le16, le32, le64, read_u16_le, read_u32_le, read_u64_le};

verus! {

/// Flag bit: a new touch contact was made.
pub const TOUCH_DOWN: u8 = 0x01;

/// Flag bit: the contact moved since it was last reported.
pub const TOUCH_MOVE: u8 = 0x02;

/// Flag bit: the touch contact was lost.
pub const TOUCH_UP: u8 = 0x04;

/// Flag bit: the contact id is certain.
pub const TOUCH_ID_VALID: u8 = 0x08;

/// Flag bit: the x/y position fields are valid.
pub const TOUCH_POS_VALID: u8 = 0x10;

/// Flag bit: the pressure field is valid.
pub const TOUCH_PRESSURE_VALID: u8 = 0x20;

/// Flag bit: the width/height fields are valid.
pub const TOUCH_SIZE_VALID: u8 = 0x40;

/// Flag bit: the gesture field is valid.
pub const TOUCH_GESTURE_VALID: u8 = 0x80;

/// Size in bytes of one touch point within the sample record: the fields
/// below in order, two padding bytes before the eight-byte-aligned timestamp.
pub const TOUCH_POINT_SIZE: usize = 24;

/// Size in bytes of one sample record: the point count, four padding bytes
/// before the eight-byte-aligned point, then one touch point.
pub const TOUCH_SAMPLE_SIZE: usize = 32;

/// Error number for a transfer that moved the wrong number of bytes; the
/// driver convention reports it negated, as `-EIO`.
pub const EIO: i32 = 5;

/// True when `mask`'s bit is set in `flags`.
pub open spec fn flag_set(flags: u8, mask: u8) -> bool {
    flags & mask != 0
}

/// One physical touch contact as the driver reports it. Which fields hold
/// trustworthy data is decided by the bits of `flags`; callers check the
/// predicates below before using a field.
#[derive(Clone, Copy, Debug, PartialEq, Eq, Structural)]
pub struct TouchPoint {
    /// Contact id, kept from touch down through moves until release.
    pub id: u8,
    /// Status bits; see the `TOUCH_*` constants.
    pub flags: u8,
    /// Horizontal position in uncalibrated device units.
    pub x: i16,
    /// Vertical position in uncalibrated device units.
    pub y: i16,
    /// Contact height in uncalibrated device units.
    pub h: i16,
    /// Contact width in uncalibrated device units.
    pub w: i16,
    /// Gesture code.
    pub gesture: u16,
    /// Contact pressure.
    pub pressure: u16,
    /// Time of the event in microseconds.
    pub timestamp: u64,
}

/// The all-zero touch point, as a zero-filled record decodes it.
pub open spec fn zero_touch_point() -> TouchPoint {
    TouchPoint {
        id: 0,
        flags: 0,
        x: 0,
        y: 0,
        h: 0,
        w: 0,
        gesture: 0,
        pressure: 0,
        timestamp: 0,
    }
}

impl Default for TouchPoint {
    /// A touch point with every field zero.
    fn default() -> (r: Self)
        ensures
            r == zero_touch_point(),
    {
        TouchPoint {
            id: 0,
            flags: 0,
            x: 0,
            y: 0,
            h: 0,
            w: 0,
            gesture: 0,
            pressure: 0,
            timestamp: 0,
        }
    }
}

impl TouchPoint {
    /// True when the x/y position fields are valid.
    pub fn is_pos_valid(&self) -> (r: bool)
        ensures
            r == flag_set(self.flags, TOUCH_POS_VALID),
    {
        self.flags & TOUCH_POS_VALID != 0
    }

    /// True when this point reports a new touch contact.
    pub fn is_touch_down(&self) -> (r: bool)
        ensures
            r == flag_set(self.flags, TOUCH_DOWN),
    {
        self.flags & TOUCH_DOWN != 0
    }

    /// True when this point reports movement of a known contact.
    pub fn is_touch_move(&self) -> (r: bool)
        ensures
            r == flag_set(self.flags, TOUCH_MOVE),
    {
        self.flags & TOUCH_MOVE != 0
    }

    /// True when this point reports a released contact.
    pub fn is_touch_up(&self) -> (r: bool)
        ensures
            r == flag_set(self.flags, TOUCH_UP),
    {
        self.flags & TOUCH_UP != 0
    }

    /// True when the contact id is certain.
    pub fn is_id_valid(&self) -> (r: bool)
        ensures
            r == flag_set(self.flags, TOUCH_ID_VALID),
    {
        self.flags & TOUCH_ID_VALID != 0
    }

    /// True when the pressure field is valid.
    pub fn is_pressure_valid(&self) -> (r: bool)
        ensures
            r == flag_set(self.flags, TOUCH_PRESSURE_VALID),
    {
        self.flags & TOUCH_PRESSURE_VALID != 0
    }

    /// True when the width/height fields are valid.
    pub fn is_size_valid(&self) -> (r: bool)
        ensures
            r == flag_set(self.flags, TOUCH_SIZE_VALID),
    {
        self.flags & TOUCH_SIZE_VALID != 0
    }

    /// True when the gesture field is valid.
    pub fn is_gesture_valid(&self) -> (r: bool)
        ensures
            r == flag_set(self.flags, TOUCH_GESTURE_VALID),
    {
        self.flags & TOUCH_GESTURE_VALID != 0
    }
}

/// Each touch status predicate holds exactly when its own bit of the flag
/// byte is set, counted from the least significant end — down 0, move 1,
/// up 2, id 3, position 4, pressure 5, size 6, gesture 7 — independent of
/// every other bit.
pub proof fn lemma_touch_flag_bits(flags: u8)
    by (bit_vector)
    ensures
        flag_set(flags, TOUCH_DOWN) == ((flags >> 0u8) & 1u8 == 1u8),
        flag_set(flags, TOUCH_MOVE) == ((flags >> 1u8) & 1u8 == 1u8),
        flag_set(flags, TOUCH_UP) == ((flags >> 2u8) & 1u8 == 1u8),
        flag_set(flags, TOUCH_ID_VALID) == ((flags >> 3u8) & 1u8 == 1u8),
        flag_set(flags, TOUCH_POS_VALID) == ((flags >> 4u8) & 1u8 == 1u8),
        flag_set(flags, TOUCH_PRESSURE_VALID) == ((flags >> 5u8) & 1u8 == 1u8),
        flag_set(flags, TOUCH_SIZE_VALID) == ((flags >> 6u8) & 1u8 == 1u8),
        flag_set(flags, TOUCH_GESTURE_VALID) == ((flags >> 7u8) & 1u8 == 1u8),
{
}

/// One read's worth of touch data: the reported contact count and the
/// single point a single-touch record carries.
#[derive(Clone, Copy, Debug, PartialEq, Eq, Structural)]
pub struct TouchSample {
    /// Number of contacts the driver reported; zero when no touch data was
    /// available.
    pub npoints: i32,
    /// The contact report; trust its fields only as its `flags` bits allow.
    pub point: TouchPoint,
}

/// The touch point stored at offset `i` of record bytes `b`: the fields in
/// wire order, with two padding bytes before the timestamp.
pub open spec fn parsed_touch_point(b: Seq<u8>, i: int) -> TouchPoint {
    TouchPoint {
        id: b[i],
        flags: b[i + 1],
        x: le16(b, i + 2) as i16,
        y: le16(b, i + 4) as i16,
        h: le16(b, i + 6) as i16,
        w: le16(b, i + 8) as i16,
        gesture: le16(b, i + 10),
        pressure: le16(b, i + 12),
        timestamp: le64(b, i + 16),
    }
}

/// The sample a whole record `b` decodes to: the point count at the front,
/// the touch point after four padding bytes.
pub open spec fn parsed_touch_sample(b: Seq<u8>) -> TouchSample {
    TouchSample { npoints: le32(b, 0) as i32, point: parsed_touch_point(b, 8) }
}

/// Decodes one whole sample record.
pub fn parse_touch_sample(buf: &Vec<u8>) -> (r: TouchSample)
    requires
        buf.len() == TOUCH_SAMPLE_SIZE,
    ensures
        r == parsed_touch_sample(buf@),
{
    let point = TouchPoint {
        id: buf[8],
        flags: buf[9],
        x: read_u16_le(buf, 10) as i16,
        y: read_u16_le(buf, 12) as i16,
        h: read_u16_le(buf, 14) as i16,
        w: read_u16_le(buf, 16) as i16,
        gesture: read_u16_le(buf, 18),
        pressure: read_u16_le(buf, 20),
        timestamp: read_u64_le(buf, 24),
    };
    TouchSample { npoints: read_u32_le(buf, 0) as i32, point }
}

/// An open touchscreen device, standing for exclusive ownership of the file
/// handle the caller obtained from the operating system. The handle leaves
/// the wrapper only through `release`, which consumes it, so the close
/// action can be taken at most once per device.
pub struct TouchScreen {
    fd: i32,
}

impl TouchScreen {
    /// The owned file handle.
    pub closed spec fn spec_fd(&self) -> i32 {
        self.fd
    }

    /// Takes ownership of the outcome of opening the device node read-only
    /// and non-blocking: a negative code is the open failure, passed through
    /// unchanged; anything else is the device handle.
    pub fn open(fd: i32) -> (r: Result<TouchScreen, i32>)
        ensures
            fd < 0 ==> r == Err::<TouchScreen, i32>(fd),
            fd >= 0 ==> r is Ok && r->Ok_0.spec_fd() == fd,
    {
        if fd < 0 {
            Err(fd)
        } else {
            Ok(TouchScreen { fd })
        }
    }

    /// The file handle to read from, unchanged for the device's lifetime.
    pub fn fd(&self) -> (r: i32)
        ensures
            r == self.spec_fd(),
    {
        self.fd
    }

    /// Interprets one non-blocking read of a sample record. `ret` is the
    /// read's return value and `buf` the buffer it filled. A negative
    /// return is the transfer failure, passed through unchanged (a
    /// would-block code when no data is ready); a non-negative count other
    /// than the record size is an incomplete transfer, reported as the
    /// generic I/O error and never as a partial sample; a whole record
    /// decodes to the sample it holds.
    pub fn read_sample(&mut self, ret: isize, buf: &Vec<u8>) -> (r: Result<TouchSample, i32>)
        requires
            buf.len() == TOUCH_SAMPLE_SIZE,
            -0x8000_0000 <= ret <= 0x7fff_ffff,
        ensures
            *final(self) == *old(self),
            ret < 0 ==> r == Err::<TouchSample, i32>(ret as i32),
            ret >= 0 && ret != TOUCH_SAMPLE_SIZE ==> (r matches Err(e) && e == -EIO),
            ret == TOUCH_SAMPLE_SIZE ==> r == Ok::<TouchSample, i32>(parsed_touch_sample(buf@)),
    {
        if ret < 0 {
            Err(ret as i32)
        } else if ret as usize != TOUCH_SAMPLE_SIZE {
            Err(-EIO)
        } else {
            Ok(parse_touch_sample(buf))
        }
    }

    /// Gives the file handle back for closing. Consuming the device here is
    /// what guarantees the close action fires at most once: afterwards no
    /// operation on the device exists.
    pub fn release(self) -> (r: i32)
        ensures
            r == self.spec_fd(),
    {
        self.fd
    }
}

} // verus!
