//! The decisions of the FreeRDP callbacks: what each reports, the settings
//! applied before connecting, and how much of the framebuffer to send after a
//! paint.

use vstd::prelude::*;

verus! {

/// The C value for true that a FreeRDP callback reports.
pub const TRUE: i32 = 1;

/// The C value for false that a FreeRDP callback reports.
pub const FALSE: i32 = 0;

/// Operating system type that the client announces: Windows.
pub const OSMAJORTYPE_WINDOWS: u32 = 1;

/// Operating system subtype that the client announces: Windows NT.
pub const OSMINORTYPE_WINDOWS_NT: u32 = 3;

/// Connection type that lets the server detect the link quality.
pub const CONNECTION_TYPE_AUTODETECT: u32 = 7;

/// The settings that the client applies before it connects.
#[derive(Debug, Clone, Copy, PartialEq, Eq, Structural)]
pub struct PreConnectSettings {
    pub os_major_type: u32,
    pub os_minor_type: u32,
    pub connection_type: u32,
    pub ignore_certificate: bool,
}

/// The client announces itself as Windows NT, lets the server detect the
/// connection type, and accepts any server certificate.
pub fn pre_connect_settings() -> (settings: PreConnectSettings)
    ensures
        settings == (PreConnectSettings {
            os_major_type: OSMAJORTYPE_WINDOWS,
            os_minor_type: OSMINORTYPE_WINDOWS_NT,
            connection_type: CONNECTION_TYPE_AUTODETECT,
            ignore_certificate: true,
        }),
{
    PreConnectSettings {
        os_major_type: OSMAJORTYPE_WINDOWS,
        os_minor_type: OSMINORTYPE_WINDOWS_NT,
        connection_type: CONNECTION_TYPE_AUTODETECT,
        ignore_certificate: true,
    }
}

/// The status that the global initialisation callback reports, given what
/// installing FreeRDP's signal handlers returned: it fails when that did.
pub fn global_init_status(handle_signals_result: i32) -> (status: i32)
    ensures
        status == (if handle_signals_result != 0 {
            FALSE
        } else {
            TRUE
        }),
{
    if handle_signals_result != 0 {
        FALSE
    } else {
        TRUE
    }
}

/// The status that the post-connect callback reports: it fails when the GDI
/// could not be initialised, and otherwise succeeds once the paint callbacks
/// are registered.
pub fn post_connect_status(gdi_initialised: bool) -> (status: i32)
    ensures
        status == (if gdi_initialised {
            TRUE
        } else {
            FALSE
        }),
{
    if gdi_initialised {
        TRUE
    } else {
        FALSE
    }
}

/// The status that the client-creation callback reports: it fails when the
/// instance or the context is missing.
pub fn client_new_status(instance_is_null: bool, context_is_null: bool) -> (status: i32)
    ensures
        status == (if instance_is_null || context_is_null {
            FALSE
        } else {
            TRUE
        }),
{
    if instance_is_null {
        return FALSE;
    }
    if context_is_null {
        return FALSE;
    }
    TRUE
}

/// The number of framebuffer bytes to send when a paint ends: the whole
/// screen at four bytes per pixel, and only when some region was invalidated.
pub open spec fn frame_bytes(ninvalid: i32, width: u32, height: u32) -> Option<usize> {
    if ninvalid > 0 {
        Some((width * height * 4) as usize)
    } else {
        None
    }
}

/// How many bytes of the framebuffer to send at the end of a paint, if any.
pub fn frame_len(ninvalid: i32, width: u32, height: u32) -> (len: Option<usize>)
    requires
        ninvalid > 0 ==> width * height * 4 <= u32::MAX,
    ensures
        len == frame_bytes(ninvalid, width, height),
{
    if ninvalid > 0 {
        assert(width * height <= u32::MAX) by (nonlinear_arith)
            requires
                width * height * 4 <= u32::MAX,
        ;
        let pixels: u32 = width * height;
        Some((pixels * 4) as usize)
    } else {
        None
    }
}

/// After a paint that invalidated some region, the whole screen is sent at
/// four bytes per pixel, however many regions were invalidated; after a paint
/// that invalidated nothing, nothing is sent.
pub proof fn lemma_frame_is_whole_screen(ninvalid: i32, width: u32, height: u32)
    requires
        width * height * 4 <= u32::MAX,
    ensures
        ninvalid > 0 ==> (frame_bytes(ninvalid, width, height) matches Some(len) && len as int
            == width as int * height as int * 4),
        ninvalid > 0 ==> frame_bytes(ninvalid, width, height) == frame_bytes(1, width, height),
        ninvalid <= 0 ==> frame_bytes(ninvalid, width, height) is None,
{
}

} // verus!
