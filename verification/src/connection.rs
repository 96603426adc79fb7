//! The capture lifecycle: open a connection to the windowing server, request
//! rectangles of pixels through it, release each captured buffer exactly
//! once, and close the connection exactly once.

use vstd::prelude::*;

use crate::capture::decodes_to;
use crate::capture::CapturedImage;
use crate::server::MemoryServer;
use crate::CaptureError;

verus! {

/// The plane mask sent with every request: all colour planes.
pub const ALL_PLANES: u64 = 0xffff_ffff_ffff_ffff;

/// The format sent with every request: fully decoded per-pixel data rather
/// than raw bitplanes.
pub const DECODED_PIXEL_FORMAT: u32 = 2;

/// An open connection to the windowing server, together with the resolved
/// default screen, its root drawable, and the screen's advertised size.
#[derive(Debug)]
pub struct DisplayConnection {
    conn: usize,
    screen: u64,
    root: u64,
    width: u32,
    height: u32,
}

impl DisplayConnection {
    /// The server's handle for this connection.
    pub closed spec fn conn_id(&self) -> usize {
        self.conn
    }

    /// The advertised width of the default screen.
    pub closed spec fn spec_width(&self) -> u32 {
        self.width
    }

    /// The advertised height of the default screen.
    pub closed spec fn spec_height(&self) -> u32 {
        self.height
    }

    /// Opens a connection. Fails with `ConnectionUnavailable` exactly when
    /// the server refuses or cannot be reached, and then changes nothing; on
    /// success the connection is open, fresh, and carries the screen's size,
    /// and the server is otherwise untouched.
    pub fn open(server: &mut MemoryServer) -> (r: Result<DisplayConnection, CaptureError>)
        ensures
            r is Ok <==> old(server).can_open(),
            r is Err ==> r == Err::<DisplayConnection, CaptureError>(
                CaptureError::ConnectionUnavailable,
            ) && *final(server) == *old(server),
            r is Ok ==> final(server).conn_live(r->Ok_0.conn_id()),
            r is Ok ==> !old(server).conn_live(r->Ok_0.conn_id()),
            r is Ok ==> r->Ok_0.spec_width() == old(server).spec_screen_width(),
            r is Ok ==> r->Ok_0.spec_height() == old(server).spec_screen_height(),
            r is Ok ==> forall|c: usize|
                c != r->Ok_0.conn_id() ==> final(server).conn_live(c) == old(server).conn_live(c),
            final(server).reply_queue() == old(server).reply_queue(),
            final(server).image_table() == old(server).image_table(),
            final(server).same_config(old(server)),
    {
        match server.open_display() {
            None => Err(CaptureError::ConnectionUnavailable),
            Some(c) => {
                let screen = server.default_screen();
                let root = server.root_window(screen);
                let width = server.screen_width();
                let height = server.screen_height();
                Ok(DisplayConnection { conn: c, screen, root, width, height })
            },
        }
    }

    /// Captures a rectangle of the root drawable. The server answers with
    /// its next scripted reply; the capture succeeds exactly when that reply
    /// is a non-null buffer of one 4-byte record per requested pixel, and
    /// the result then decodes that buffer whole. On any failure nothing is
    /// allocated: no image slot appears and `None` is returned, never a
    /// partially populated image.
    pub fn capture_area(
        &self,
        server: &mut MemoryServer,
        width: u32,
        height: u32,
        x: i32,
        y: i32,
    ) -> (r: Option<CapturedImage>)
        requires
            old(server).conn_live(self.conn_id()),
        ensures
            r is Some <==> old(server).next_reply_fits(width, height),
            r is Some ==> r->0.wf(),
            r is Some ==> r->0.spec_width() == width && r->0.spec_height() == height,
            r is Some ==> decodes_to(old(server).next_reply_bytes(), r->0.pixel_seq()),
            r is Some ==> final(server).image_table() == old(server).image_table().push(
                Some(self.conn_id()),
            ),
            r is Some ==> final(server).image_live(r->0.spec_handle()),
            r is Some ==> !old(server).image_live(r->0.spec_handle()),
            r is Some ==> final(server).image_owner(r->0.spec_handle()) == Some(self.conn_id()),
            r is None ==> final(server).image_table() == old(server).image_table(),
            old(server).reply_queue().len() > 0 ==> final(server).reply_queue() == old(
                server,
            ).reply_queue().drop_first(),
            old(server).reply_queue().len() == 0 ==> final(server).reply_queue() == old(
                server,
            ).reply_queue(),
            final(server).spec_destroy_count() == old(server).spec_destroy_count(),
            final(server).conn_table() == old(server).conn_table(),
            final(server).same_config(old(server)),
    {
        let raw = server.get_image(
            self.conn,
            self.root,
            x,
            y,
            width,
            height,
            ALL_PLANES,
            DECODED_PIXEL_FORMAT,
        );
        match raw {
            None => None,
            Some(raw) => {
                match CapturedImage::from_bytes(raw.handle, raw.width, raw.height, &raw.data) {
                    Some(img) => Some(img),
                    // a reply that fit the request always decodes
                    None => vstd::pervasive::unreached(),
                }
            },
        }
    }

    /// Captures the full area of the default screen: the rectangle at offset
    /// (0, 0) whose size is exactly what the screen advertised when the
    /// connection was opened.
    pub fn capture(&self, server: &mut MemoryServer) -> (r: Option<CapturedImage>)
        requires
            old(server).conn_live(self.conn_id()),
        ensures
            r is Some <==> old(server).next_reply_fits(self.spec_width(), self.spec_height()),
            r is Some ==> r->0.wf(),
            r is Some ==> r->0.spec_width() == self.spec_width() && r->0.spec_height()
                == self.spec_height(),
            r is Some ==> decodes_to(old(server).next_reply_bytes(), r->0.pixel_seq()),
            r is Some ==> final(server).image_table() == old(server).image_table().push(
                Some(self.conn_id()),
            ),
            r is Some ==> final(server).image_live(r->0.spec_handle()),
            r is Some ==> !old(server).image_live(r->0.spec_handle()),
            r is None ==> final(server).image_table() == old(server).image_table(),
            final(server).spec_destroy_count() == old(server).spec_destroy_count(),
            final(server).conn_table() == old(server).conn_table(),
            final(server).same_config(old(server)),
    {
        self.capture_area(server, self.width, self.height, 0, 0)
    }

    /// Closes the connection. It must still be open and must have no live
    /// image left — every capture taken through it must already have been
    /// released — and consuming `self` makes a second close impossible.
    pub fn close(self, server: &mut MemoryServer)
        requires
            old(server).conn_live(self.conn_id()),
            !old(server).has_live_image_of(self.conn_id()),
        ensures
            !final(server).conn_live(self.conn_id()),
            forall|c: usize|
                c != self.conn_id() ==> final(server).conn_live(c) == old(server).conn_live(c),
            final(server).reply_queue() == old(server).reply_queue(),
            final(server).image_table() == old(server).image_table(),
            final(server).same_config(old(server)),
    {
        server.close_display(self.conn);
    }

    pub fn width(&self) -> (r: u32)
        ensures
            r == self.spec_width(),
    {
        self.width
    }

    pub fn height(&self) -> (r: u32)
        ensures
            r == self.spec_height(),
    {
        self.height
    }
}

impl CapturedImage {
    /// Releases the captured buffer back to the server. The image must still
    /// be live — it always is, unless the caller reached the same handle
    /// through another image — and consuming `self` makes a second release
    /// impossible: the server sees exactly one `destroy-image` for it.
    pub fn release(self, server: &mut MemoryServer)
        requires
            old(server).image_live(self.spec_handle()),
        ensures
            final(server).spec_destroy_count() == old(server).spec_destroy_count() + 1,
            !final(server).image_live(self.spec_handle()),
            forall|h: usize|
                h != self.spec_handle() ==> final(server).image_owner(h) == old(server).image_owner(
                    h,
                ),
            final(server).image_count() == old(server).image_count(),
            final(server).reply_queue() == old(server).reply_queue(),
            final(server).conn_table() == old(server).conn_table(),
            final(server).same_config(old(server)),
    {
        server.destroy_image(self.handle());
    }
}

} // verus!
