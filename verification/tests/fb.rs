use nuttx::video::fb::{
    Area, FrameBuffer, FBIOGET_PLANEINFO, FBIOGET_VIDEOINFO, FBIO_UPDATE, FB_FMT_RGB12_444,
    FB_FMT_RGB16_555, FB_FMT_RGB16_565, FB_FMT_RGB24, FB_FMT_RGB32, FB_FMT_RGB4, FB_FMT_RGB8,
    FB_FMT_RGB8_222, FB_FMT_RGB8_332, FB_FMT_RGBA16, FB_FMT_RGBA32, PLANE_INFO_SIZE,
    VIDEO_INFO_SIZE,
};

#[test]
fn fb_open_failure_propagates_the_code() {
    match FrameBuffer::new(-13, true) {
        Ok(_) => panic!("open of a missing device node must fail"),
        Err(e) => {
            assert!(e < 0);
            assert_eq!(e, -13);
        }
    }
}

#[test]
fn open_success_keeps_handle_and_capability() {
    let fb = FrameBuffer::new(4, true).unwrap();
    assert_eq!(fb.fd(), 4);
    assert_eq!(fb.release(), 4);
}

#[test]
fn failed_video_info_control_call_propagates_the_code() {
    let fb = FrameBuffer::new(4, true).unwrap();
    let buf = vec![0u8; VIDEO_INFO_SIZE];
    assert_eq!(fb.get_video_info(-5, &buf), Err(-5));
}

#[test]
fn failed_plane_info_control_call_propagates_the_code() {
    let fb = FrameBuffer::new(4, true).unwrap();
    let buf = vec![0u8; PLANE_INFO_SIZE];
    assert_eq!(fb.get_plane_info(-5, &buf), Err(-5));
}

#[test]
fn video_info_record_decodes_little_endian() {
    let buf: Vec<u8> = vec![
        FB_FMT_RGB16_565,
        0xAA, // padding
        0x20, 0x03, // xres
        0xE0, 0x01, // yres
        2, // nplanes
        1, // noverlays
    ];
    assert_eq!(buf.len(), VIDEO_INFO_SIZE);
    let fb = FrameBuffer::new(4, true).unwrap();
    let info = fb.get_video_info(0, &buf).unwrap();
    assert_eq!(info.fmt, FB_FMT_RGB16_565);
    assert_eq!(info.fmt, 11);
    assert_eq!(info.xres, 800);
    assert_eq!(info.yres, 480);
    assert_eq!(info.nplanes, 2);
    assert_eq!(info.noverlays, 1);
}

#[test]
fn plane_info_record_decodes_little_endian() {
    let buf: Vec<u8> = vec![
        0x00, 0x10, 0x00, 0x80, 0x00, 0x00, 0x00, 0x00, // fbmem
        0x00, 0x58, 0x02, 0x00, 0x00, 0x00, 0x00, 0x00, // fblen
        0x40, 0x06, // stride
        3,    // display
        16,   // bpp
        0x20, 0x03, 0x00, 0x00, // xres_virtual
        0xE0, 0x01, 0x00, 0x00, // yres_virtual
        0x10, 0x00, 0x00, 0x00, // xoffset
        0x08, 0x00, 0x00, 0x00, // yoffset
        0xCC, 0xCC, 0xCC, 0xCC, // trailing padding
    ];
    assert_eq!(buf.len(), PLANE_INFO_SIZE);
    let fb = FrameBuffer::new(4, true).unwrap();
    let info = fb.get_plane_info(0, &buf).unwrap();
    assert_eq!(info.fbmem, 0x80001000);
    assert_eq!(info.fblen, 153600);
    assert_eq!(info.stride, 1600);
    assert_eq!(info.display, 3);
    assert_eq!(info.bpp, 16);
    assert_eq!(info.xres_virtual, 800);
    assert_eq!(info.yres_virtual, 480);
    assert_eq!(info.xoffset, 16);
    assert_eq!(info.yoffset, 8);
}

#[test]
fn unsupported_update_asks_for_no_call_and_succeeds() {
    let fb = FrameBuffer::new(4, false).unwrap();
    let areas = [
        Area { x: 0, y: 0, w: 0, h: 0 },
        Area { x: 1, y: 2, w: 3, h: 4 },
        Area { x: 65535, y: 65535, w: 65535, h: 65535 },
    ];
    let mut issued = 0;
    for area in &areas {
        if fb.update_request(area).is_some() {
            issued += 1;
        }
        assert_eq!(fb.update_area(area, -77), Ok(()));
        assert_eq!(fb.update_area(area, 0), Ok(()));
    }
    assert_eq!(issued, 0);
}

#[test]
fn supported_update_issues_the_update_command() {
    let fb = FrameBuffer::new(4, true).unwrap();
    let area = Area { x: 10, y: 20, w: 30, h: 40 };
    let req = fb.update_request(&area).unwrap();
    assert_eq!(req.cmd, FBIO_UPDATE);
    assert_eq!(req.cmd, 0x2807);
    assert_eq!(req.area, area);
    assert_eq!(fb.update_area(&area, 0), Ok(()));
    assert_eq!(fb.update_area(&area, -5), Err(-5));
}

#[test]
fn control_command_codes_match_the_protocol() {
    assert_eq!(FBIOGET_VIDEOINFO, 0x2801);
    assert_eq!(FBIOGET_PLANEINFO, 0x2802);
    assert_eq!(FBIO_UPDATE, 0x2807);
}

#[test]
fn rgb_format_codes_are_distinct() {
    let codes = [
        FB_FMT_RGB4,
        FB_FMT_RGB8,
        FB_FMT_RGB8_222,
        FB_FMT_RGB8_332,
        FB_FMT_RGB12_444,
        FB_FMT_RGB16_555,
        FB_FMT_RGB16_565,
        FB_FMT_RGB24,
        FB_FMT_RGB32,
        FB_FMT_RGBA16,
        FB_FMT_RGBA32,
    ];
    for i in 0..codes.len() {
        for j in 0..codes.len() {
            if i != j {
                assert_ne!(codes[i], codes[j]);
            }
        }
    }
    assert_eq!(FB_FMT_RGB16_565, 11);
}
