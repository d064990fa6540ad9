//! Framebuffer device interface.
//!
//! Mirrors the NuttX framebuffer driver contract: a device node is opened
//! read-write, and three device-control requests fetch the video mode,
//! fetch a plane's memory descriptor, and push a damaged rectangle. The
//! system calls themselves are the caller's; this module decides what each
//! outcome means and decodes the records the driver fills in.
//!
//! Whether the driver supports partial-region updates is a build-time
//! choice of the target; it reaches this module as a capability flag fixed
//! when the device is opened. With the capability off, pushing a rectangle
//! asks for no device-control call at all and always succeeds, exactly as
//! the capability-less driver build behaves.

use vstd::prelude::*;

use crate::bytes::{le16, le32, le64, read_u16_le, read_u32_le, read_u64_le};

verus! {

/// Device-control command: fetch the video mode descriptor.
pub const FBIOGET_VIDEOINFO: i32 = 0x2801;

/// Device-control command: fetch a color plane's memory descriptor.
pub const FBIOGET_PLANEINFO: i32 = 0x2802;

/// Device-control command: push a damaged rectangle to the hardware.
pub const FBIO_UPDATE: i32 = 0x2807;

/// Pixel format code: 4 bits-per-pixel RGB.
pub const FB_FMT_RGB4: u8 = 5;

/// Pixel format code: 8 bits-per-pixel palettized RGB.
pub const FB_FMT_RGB8: u8 = 6;

/// Pixel format code: 8 bits-per-pixel RGB, 2-2-2.
pub const FB_FMT_RGB8_222: u8 = 7;

/// Pixel format code: 8 bits-per-pixel RGB, 3-3-2.
pub const FB_FMT_RGB8_332: u8 = 8;

/// Pixel format code: 12 bits-per-pixel RGB, 4-4-4.
pub const FB_FMT_RGB12_444: u8 = 9;

/// Pixel format code: 16 bits-per-pixel RGB, 5-5-5.
pub const FB_FMT_RGB16_555: u8 = 10;

/// Pixel format code: 16 bits-per-pixel RGB, 5-6-5.
pub const FB_FMT_RGB16_565: u8 = 11;

/// Pixel format code: 24 bits-per-pixel RGB.
pub const FB_FMT_RGB24: u8 = 12;

/// Pixel format code: 32 bits-per-pixel RGB.
pub const FB_FMT_RGB32: u8 = 13;

/// Pixel format code: 16 bits-per-pixel RGB with alpha.
pub const FB_FMT_RGBA16: u8 = 14;

/// Pixel format code: 32 bits-per-pixel RGB with alpha.
pub const FB_FMT_RGBA32: u8 = 15;

/// Coordinate type used in framebuffer records.
pub type Coord = u16;

/// Result type for framebuffer operations: the value, or the negative error
/// code of the call that failed.
pub type FrameBufferResult<T> = Result<T, i32>;

/// Size in bytes of the video mode record: format byte, one padding byte
/// before the two-byte-aligned resolutions, plane and overlay counts.
pub const VIDEO_INFO_SIZE: usize = 8;

/// Size in bytes of the plane record: two eight-byte fields, the short
/// fields, four four-byte fields, and four trailing padding bytes that
/// round the record up to eight-byte alignment.
pub const PLANE_INFO_SIZE: usize = 40;

/// Display mode descriptor, as the driver fills it in.
#[derive(Clone, Copy, Debug, PartialEq, Eq, Structural)]
pub struct VideoInfo {
    /// Pixel format code; see the `FB_FMT_*` constants.
    pub fmt: u8,
    /// Horizontal resolution in pixels.
    pub xres: Coord,
    /// Vertical resolution in pixels.
    pub yres: Coord,
    /// Number of color planes.
    pub nplanes: u8,
    /// Number of overlays of the target build.
    pub noverlays: u8,
}

/// One color plane's memory descriptor, as the driver fills it in.
#[derive(Clone, Copy, Debug, PartialEq, Eq, Structural)]
pub struct PlaneInfo {
    /// Base of the plane's memory as an opaque numeric handle; mapping it
    /// is a separate step outside this interface.
    pub fbmem: u64,
    /// Length of the plane's memory in bytes.
    pub fblen: u64,
    /// Length of one row in bytes.
    pub stride: Coord,
    /// Display index the plane belongs to.
    pub display: u8,
    /// Color depth in bits per pixel.
    pub bpp: u8,
    /// Virtual horizontal resolution in pixels.
    pub xres_virtual: u32,
    /// Virtual vertical resolution in pixels.
    pub yres_virtual: u32,
    /// Horizontal pan offset in pixels.
    pub xoffset: u32,
    /// Vertical pan offset in pixels.
    pub yoffset: u32,
}

/// A damaged rectangle to push to the hardware.
#[derive(Clone, Copy, Debug, PartialEq, Eq, Structural)]
pub struct Area {
    /// Left edge in coordinate units.
    pub x: Coord,
    /// Top edge in coordinate units.
    pub y: Coord,
    /// Width in coordinate units.
    pub w: Coord,
    /// Height in coordinate units.
    pub h: Coord,
}

/// A device-control call the caller is asked to issue: the command code and
/// the rectangle to pass by reference.
#[derive(Clone, Copy, Debug, PartialEq, Eq, Structural)]
pub struct UpdateRequest {
    /// Device-control command code.
    pub cmd: i32,
    /// The rectangle the command takes.
    pub area: Area,
}

/// The video mode descriptor stored in record bytes `b`: the format byte,
/// one padding byte, then the resolutions and counts in wire order.
pub open spec fn parsed_video_info(b: Seq<u8>) -> VideoInfo {
    VideoInfo {
        fmt: b[0],
        xres: le16(b, 2),
        yres: le16(b, 4),
        nplanes: b[6],
        noverlays: b[7],
    }
}

/// The plane descriptor stored in record bytes `b`: the fields in wire
/// order, the trailing padding ignored.
pub open spec fn parsed_plane_info(b: Seq<u8>) -> PlaneInfo {
    PlaneInfo {
        fbmem: le64(b, 0),
        fblen: le64(b, 8),
        stride: le16(b, 16),
        display: b[18],
        bpp: b[19],
        xres_virtual: le32(b, 20),
        yres_virtual: le32(b, 24),
        xoffset: le32(b, 28),
        yoffset: le32(b, 32),
    }
}

/// Decodes one video mode record.
pub fn parse_video_info(buf: &Vec<u8>) -> (r: VideoInfo)
    requires
        buf.len() == VIDEO_INFO_SIZE,
    ensures
        r == parsed_video_info(buf@),
{
    VideoInfo {
        fmt: buf[0],
        xres: read_u16_le(buf, 2),
        yres: read_u16_le(buf, 4),
        nplanes: buf[6],
        noverlays: buf[7],
    }
}

/// Decodes one plane record.
pub fn parse_plane_info(buf: &Vec<u8>) -> (r: PlaneInfo)
    requires
        buf.len() == PLANE_INFO_SIZE,
    ensures
        r == parsed_plane_info(buf@),
{
    PlaneInfo {
        fbmem: read_u64_le(buf, 0),
        fblen: read_u64_le(buf, 8),
        stride: read_u16_le(buf, 16),
        display: buf[18],
        bpp: buf[19],
        xres_virtual: read_u32_le(buf, 20),
        yres_virtual: read_u32_le(buf, 24),
        xoffset: read_u32_le(buf, 28),
        yoffset: read_u32_le(buf, 32),
    }
}

/// An open framebuffer device, standing for exclusive ownership of the file
/// handle the caller obtained from the operating system, together with the
/// target build's update capability. The handle leaves the wrapper only
/// through `release`, which consumes it, so the close action can be taken
/// at most once per device.
#[derive(Debug)]
pub struct FrameBuffer {
    fd: i32,
    update_supported: bool,
}

impl FrameBuffer {
    /// The owned file handle.
    pub closed spec fn spec_fd(&self) -> i32 {
        self.fd
    }

    /// Whether the target build supports partial-region updates.
    pub closed spec fn spec_update_supported(&self) -> bool {
        self.update_supported
    }

    /// Takes ownership of the outcome of opening the device node
    /// read-write: a negative code is the open failure, passed through
    /// unchanged; anything else is the device handle. `update_supported`
    /// records the target build's partial-update capability, fixed once
    /// here and never changed afterwards.
    pub fn new(fd: i32, update_supported: bool) -> (r: FrameBufferResult<FrameBuffer>)
        ensures
            fd < 0 ==> r == Err::<FrameBuffer, i32>(fd),
            fd >= 0 ==> r is Ok && r->Ok_0.spec_fd() == fd && r->Ok_0.spec_update_supported()
                == update_supported,
    {
        if fd < 0 {
            Err(fd)
        } else {
            Ok(FrameBuffer { fd, update_supported })
        }
    }

    /// The file handle to issue device-control calls on, unchanged for the
    /// device's lifetime.
    pub fn fd(&self) -> (r: i32)
        ensures
            r == self.spec_fd(),
    {
        self.fd
    }

    /// Interprets the outcome of the video mode request, issued with
    /// command `FBIOGET_VIDEOINFO` on a zero-filled record buffer. A
    /// negative return is the control failure, passed through unchanged;
    /// otherwise the record decodes to the descriptor the driver wrote.
    pub fn get_video_info(&self, ret: i32, buf: &Vec<u8>) -> (r: FrameBufferResult<VideoInfo>)
        requires
            buf.len() == VIDEO_INFO_SIZE,
        ensures
            ret < 0 ==> r == Err::<VideoInfo, i32>(ret),
            ret >= 0 ==> r == Ok::<VideoInfo, i32>(parsed_video_info(buf@)),
    {
        if ret < 0 {
            Err(ret)
        } else {
            Ok(parse_video_info(buf))
        }
    }

    /// Interprets the outcome of the plane request, issued with command
    /// `FBIOGET_PLANEINFO` on a zero-filled record buffer. A negative
    /// return is the control failure, passed through unchanged; otherwise
    /// the record decodes to the descriptor the driver wrote.
    pub fn get_plane_info(&self, ret: i32, buf: &Vec<u8>) -> (r: FrameBufferResult<PlaneInfo>)
        requires
            buf.len() == PLANE_INFO_SIZE,
        ensures
            ret < 0 ==> r == Err::<PlaneInfo, i32>(ret),
            ret >= 0 ==> r == Ok::<PlaneInfo, i32>(parsed_plane_info(buf@)),
    {
        if ret < 0 {
            Err(ret)
        } else {
            Ok(parse_plane_info(buf))
        }
    }

    /// Decides whether pushing `area` needs a device-control call: with
    /// partial updates supported, the caller is asked to issue `FBIO_UPDATE`
    /// with exactly this rectangle; without them, no call is asked for,
    /// whatever the rectangle holds.
    pub fn update_request(&self, area: &Area) -> (r: Option<UpdateRequest>)
        ensures
            self.spec_update_supported() ==> r == Some(
                (UpdateRequest { cmd: FBIO_UPDATE, area: *area }),
            ),
            !self.spec_update_supported() ==> r is None,
    {
        if self.update_supported {
            Some(UpdateRequest { cmd: FBIO_UPDATE, area: *area })
        } else {
            None
        }
    }

    /// Settles the outcome of pushing `area`. Without partial-update
    /// support this succeeds for every rectangle and every `ret`, since no
    /// call was asked for; with it, `ret` is the issued call's return, a
    /// negative value passing through unchanged as the failure.
    pub fn update_area(&self, _area: &Area, ret: i32) -> (r: FrameBufferResult<()>)
        ensures
            !self.spec_update_supported() ==> r == Ok::<(), i32>(()),
            self.spec_update_supported() && ret < 0 ==> r == Err::<(), i32>(ret),
            self.spec_update_supported() && ret >= 0 ==> r == Ok::<(), i32>(()),
    {
        if !self.update_supported {
            Ok(())
        } else if ret < 0 {
            Err(ret)
        } else {
            Ok(())
        }
    }

    /// Gives the file handle back for closing. Consuming the device here is
    /// what guarantees the close action fires at most once: afterwards no
    /// operation on the device exists.
    pub fn release(self) -> (r: i32)
        ensures
            r == self.spec_fd(),
    {
        self.fd
    }
}

} // verus!
