//! An explicit in-memory model of the windowing server: open and close
//! connections, answer rectangle requests from a scripted reply queue, and
//! account for every buffer it hands out until it is destroyed exactly once.

use vstd::prelude::*;

verus! {

/// One raw image the server produced: its handle, the requested rectangle,
/// and the pixel bytes (four per pixel: blue, green, red, padding).
pub struct RawImage {
    pub handle: usize,
    pub width: u32,
    pub height: u32,
    pub data: Vec<u8>,
}

/// How many image slots have been destroyed.
pub open spec fn count_none(s: Seq<Option<usize>>) -> nat
    decreases s.len(),
{
    if s.len() == 0 {
        0
    } else {
        count_none(s.drop_last()) + if s.last() is None {
            1nat
        } else {
            0nat
        }
    }
}

/// Destroying one live slot raises the destroyed count by exactly one.
proof fn lemma_count_none_set_none(s: Seq<Option<usize>>, i: int)
    requires
        0 <= i < s.len(),
        s[i] is Some,
    ensures
        count_none(s.update(i, None)) == count_none(s) + 1,
    decreases s.len(),
{
    let t = s.update(i, None);
    if i == s.len() - 1 {
        assert(t.drop_last() =~= s.drop_last());
        assert(t.last() is None);
    } else {
        lemma_count_none_set_none(s.drop_last(), i);
        assert(t.drop_last() =~= s.drop_last().update(i, None));
        assert(t.last() == s.last());
    }
}

/// Allocating a live slot leaves the destroyed count unchanged.
proof fn lemma_count_none_push_some(s: Seq<Option<usize>>, c: usize)
    ensures
        count_none(s.push(Some(c))) == count_none(s),
{
    assert(s.push(Some(c)).drop_last() =~= s);
}

/// The windowing server as an explicit value. Connections and images are
/// identified by handles that index the server's slot tables; a slot stays
/// allocated forever, so a handle is never reused and "destroyed" is a state
/// the accounting can see. What `get-image` answers is scripted through a
/// reply queue, so captures and failures can both be exercised.
pub struct MemoryServer {
    accepting: bool,
    screen_width: u32,
    screen_height: u32,
    replies: Vec<Option<Vec<u8>>>,
    conns: Vec<bool>,
    images: Vec<Option<usize>>,
}

impl MemoryServer {
    /// Whether an `open-display` request would be honoured.
    pub closed spec fn can_open(&self) -> bool {
        self.accepting
    }

    pub closed spec fn spec_screen_width(&self) -> u32 {
        self.screen_width
    }

    pub closed spec fn spec_screen_height(&self) -> u32 {
        self.screen_height
    }

    /// The scripted `get-image` replies still pending, oldest first.
    pub closed spec fn reply_queue(&self) -> Seq<Option<Seq<u8>>> {
        self.replies@.map_values(|r: Option<Vec<u8>>| reply_view(r))
    }

    /// Connection slot table: `true` while the connection is open.
    pub closed spec fn conn_table(&self) -> Seq<bool> {
        self.conns@
    }

    /// Image slot table: the owning connection while the buffer is live,
    /// `None` once it has been destroyed.
    pub closed spec fn image_table(&self) -> Seq<Option<usize>> {
        self.images@
    }

    pub open spec fn conn_live(&self, c: usize) -> bool {
        c < self.conn_table().len() && self.conn_table()[c as int]
    }

    pub open spec fn image_live(&self, h: usize) -> bool {
        h < self.image_table().len() && self.image_table()[h as int] is Some
    }

    /// The connection a live image was produced for.
    pub open spec fn image_owner(&self, h: usize) -> Option<usize> {
        if h < self.image_table().len() {
            self.image_table()[h as int]
        } else {
            None
        }
    }

    /// Some live image was produced for connection `c`.
    pub open spec fn has_live_image_of(&self, c: usize) -> bool {
        exists|h: int| 0 <= h < self.image_table().len() && self.image_table()[h] == Some(c)
    }

    /// How many image buffers the server has ever handed out.
    pub open spec fn image_count(&self) -> nat {
        self.image_table().len()
    }

    /// How many `destroy-image` requests have been honoured.
    pub open spec fn spec_destroy_count(&self) -> nat {
        count_none(self.image_table())
    }

    /// The next scripted reply answers a `width` by `height` request: it is
    /// present, non-null, and holds one 4-byte record per pixel.
    pub open spec fn next_reply_fits(&self, width: u32, height: u32) -> bool {
        &&& self.reply_queue().len() > 0
        &&& self.reply_queue()[0] is Some
        &&& self.reply_queue()[0]->0.len() == 4 * width * height
    }

    /// The bytes of the next scripted reply.
    pub open spec fn next_reply_bytes(&self) -> Seq<u8> {
        self.reply_queue()[0]->0
    }

    /// The parts of the server a request never touches: whether connections
    /// are accepted, and the advertised screen size.
    pub open spec fn same_config(&self, other: &MemoryServer) -> bool {
        &&& self.can_open() == other.can_open()
        &&& self.spec_screen_width() == other.spec_screen_width()
        &&& self.spec_screen_height() == other.spec_screen_height()
    }

    /// A fresh server advertising a `screen_width` by `screen_height` screen,
    /// accepting connections, with nothing scripted and nothing handed out.
    pub fn new(screen_width: u32, screen_height: u32) -> (r: MemoryServer)
        ensures
            r.can_open(),
            r.spec_screen_width() == screen_width,
            r.spec_screen_height() == screen_height,
            r.reply_queue().len() == 0,
            r.conn_table().len() == 0,
            r.image_table().len() == 0,
            r.spec_destroy_count() == 0,
    {
        let r = MemoryServer {
            accepting: true,
            screen_width,
            screen_height,
            replies: Vec::new(),
            conns: Vec::new(),
            images: Vec::new(),
        };
        proof {
            assert(r.reply_queue() =~= Seq::<Option<Seq<u8>>>::empty());
        }
        r
    }

    /// Makes every further `open-display` request fail, as an unreachable
    /// server would.
    pub fn refuse_open(&mut self)
        ensures
            !final(self).can_open(),
            final(self).spec_screen_width() == old(self).spec_screen_width(),
            final(self).spec_screen_height() == old(self).spec_screen_height(),
            final(self).reply_queue() == old(self).reply_queue(),
            final(self).conn_table() == old(self).conn_table(),
            final(self).image_table() == old(self).image_table(),
    {
        self.accepting = false;
    }

    /// Scripts the answer to the next `get-image` request: `None` for a
    /// server-side failure, or the raw bytes of the rectangle.
    pub fn push_reply(&mut self, reply: Option<Vec<u8>>)
        ensures
            final(self).reply_queue() == old(self).reply_queue().push(reply_view(reply)),
            final(self).conn_table() == old(self).conn_table(),
            final(self).image_table() == old(self).image_table(),
            final(self).same_config(old(self)),
    {
        let ghost q0 = self.reply_queue();
        let ghost v = reply_view(reply);
        self.replies.push(reply);
        proof {
            assert(final(self).reply_queue() =~= q0.push(v));
        }
    }

    /// Honours an `open-display` request exactly when the server accepts
    /// connections, allocating a fresh connection handle.
    pub fn open_display(&mut self) -> (r: Option<usize>)
        ensures
            r is Some <==> old(self).can_open(),
            r is Some ==> final(self).conn_table() == old(self).conn_table().push(true),
            r is Some ==> r->0 == old(self).conn_table().len(),
            r is Some ==> final(self).conn_live(r->0) && !old(self).conn_live(r->0),
            r is None ==> *final(self) == *old(self),
            final(self).reply_queue() == old(self).reply_queue(),
            final(self).image_table() == old(self).image_table(),
            final(self).same_config(old(self)),
    {
        if self.accepting {
            let c = self.conns.len();
            self.conns.push(true);
            Some(c)
        } else {
            None
        }
    }

    /// The default screen of the display; resolving it never fails on an
    /// open connection.
    pub fn default_screen(&self) -> (r: u64)
        ensures
            r == 0,
    {
        0
    }

    /// The root drawable of a screen; resolving it never fails on an open
    /// connection.
    pub fn root_window(&self, _screen: u64) -> (r: u64)
        ensures
            r == 1,
    {
        1
    }

    pub fn screen_width(&self) -> (r: u32)
        ensures
            r == self.spec_screen_width(),
    {
        self.screen_width
    }

    pub fn screen_height(&self) -> (r: u32)
        ensures
            r == self.spec_screen_height(),
    {
        self.screen_height
    }

    /// Answers a `get-image` request for a rectangle of the drawable. The
    /// offsets, plane mask and format are accepted as the protocol carries
    /// them; what comes back is the next scripted reply. The request succeeds
    /// exactly when the connection is open and that reply is a non-null
    /// buffer of the right length; only then is an image slot allocated.
    pub fn get_image(
        &mut self,
        conn: usize,
        _drawable: u64,
        _x: i32,
        _y: i32,
        width: u32,
        height: u32,
        _plane_mask: u64,
        _format: u32,
    ) -> (r: Option<RawImage>)
        ensures
            r is Some <==> old(self).conn_live(conn) && old(self).next_reply_fits(width, height),
            r is Some ==> r->0.width == width && r->0.height == height,
            r is Some ==> r->0.data@ == old(self).next_reply_bytes(),
            r is Some ==> r->0.handle == old(self).image_table().len(),
            r is Some ==> final(self).image_table() == old(self).image_table().push(Some(conn)),
            r is Some ==> final(self).image_live(r->0.handle) && !old(self).image_live(r->0.handle),
            r is None ==> final(self).image_table() == old(self).image_table(),
            old(self).conn_live(conn) && old(self).reply_queue().len() > 0 ==> final(self).reply_queue()
                == old(self).reply_queue().drop_first(),
            !(old(self).conn_live(conn) && old(self).reply_queue().len() > 0) ==> final(self).reply_queue()
                == old(self).reply_queue(),
            final(self).spec_destroy_count() == old(self).spec_destroy_count(),
            final(self).conn_table() == old(self).conn_table(),
            final(self).same_config(old(self)),
    {
        if !(conn < self.conns.len() && self.conns[conn]) {
            return None;
        }
        if self.replies.len() == 0 {
            return None;
        }
        let ghost q0 = self.reply_queue();
        let reply: Option<Vec<u8>> = self.replies.remove(0);
        proof {
            assert(self.reply_queue() =~= q0.drop_first());
            assert(reply_view(reply) == q0[0]);
        }
        match reply {
            None => None,
            Some(bytes) => {
                proof {
                    crate::capture::lemma_rect_arith(width as int, height as int);
                }
                let blen: usize = bytes.len();
                if (blen as u128) != 4u128 * (width as u128) * (height as u128) {
                    return None;
                }
                let handle = self.images.len();
                let ghost t0 = self.images@;
                self.images.push(Some(conn));
                proof {
                    lemma_count_none_push_some(t0, conn);
                }
                Some(RawImage { handle, width, height, data: bytes })
            },
        }
    }

    /// Honours a `destroy-image` request exactly when the handle is a live
    /// image; the slot is then dead forever, so the same buffer can never be
    /// released twice.
    pub fn destroy_image(&mut self, handle: usize) -> (r: bool)
        ensures
            r == old(self).image_live(handle),
            r ==> final(self).spec_destroy_count() == old(self).spec_destroy_count() + 1,
            r ==> final(self).image_table() == old(self).image_table().update(handle as int, None),
            !final(self).image_live(handle) || !r,
            !r ==> *final(self) == *old(self),
            final(self).image_count() == old(self).image_count(),
            forall|h: usize|
                h != handle ==> final(self).image_owner(h) == old(self).image_owner(h),
            final(self).reply_queue() == old(self).reply_queue(),
            final(self).conn_table() == old(self).conn_table(),
            final(self).same_config(old(self)),
    {
        if handle < self.images.len() && self.images[handle].is_some() {
            let ghost t0 = self.images@;
            self.images.set(handle, None);
            proof {
                lemma_count_none_set_none(t0, handle as int);
            }
            true
        } else {
            false
        }
    }

    /// Honours a `close-display` request exactly when the connection is open;
    /// the slot is then dead forever, so the same connection can never be
    /// closed twice.
    pub fn close_display(&mut self, conn: usize) -> (r: bool)
        ensures
            r == old(self).conn_live(conn),
            r ==> final(self).conn_table() == old(self).conn_table().update(conn as int, false),
            !final(self).conn_live(conn) || !r,
            !r ==> *final(self) == *old(self),
            forall|c: usize| c != conn ==> final(self).conn_live(c) == old(self).conn_live(c),
            final(self).reply_queue() == old(self).reply_queue(),
            final(self).image_table() == old(self).image_table(),
            final(self).same_config(old(self)),
    {
        if conn < self.conns.len() && self.conns[conn] {
            self.conns.set(conn, false);
            true
        } else {
            false
        }
    }

    /// How many `destroy-image` requests the server has honoured.
    pub fn destroy_count(&self) -> (r: usize)
        ensures
            r == self.spec_destroy_count(),
    {
        let n = self.images.len();
        let mut count: usize = 0;
        let mut i: usize = 0;
        while i < n
            invariant
                i <= n,
                n == self.image_table().len(),
                count <= i,
                count == count_none(self.image_table().take(i as int)),
            decreases n - i,
        {
            if self.images[i].is_none() {
                count = count + 1;
            }
            proof {
                assert(self.image_table().take(i + 1).drop_last() =~= self.image_table().take(
                    i as int,
                ));
                assert(self.image_table().take(i + 1).last() == self.image_table()[i as int]);
            }
            i = i + 1;
        }
        proof {
            assert(self.image_table().take(n as int) =~= self.image_table());
        }
        count
    }

    /// How many buffers the server has handed out and not yet seen destroyed.
    pub fn live_image_count(&self) -> (r: usize)
        ensures
            r == self.image_count() - self.spec_destroy_count(),
    {
        proof {
            lemma_count_none_le_len(self.image_table());
        }
        let total = self.images.len();
        let dead = self.destroy_count();
        total - dead
    }

    /// Whether a connection handle is currently open.
    pub fn conn_is_live(&self, conn: usize) -> (r: bool)
        ensures
            r == self.conn_live(conn),
    {
        conn < self.conns.len() && self.conns[conn]
    }

    /// Whether an image handle is currently live.
    pub fn image_is_live(&self, handle: usize) -> (r: bool)
        ensures
            r == self.image_live(handle),
    {
        handle < self.images.len() && self.images[handle].is_some()
    }
}

/// No more slots can have been destroyed than were ever allocated.
proof fn lemma_count_none_le_len(s: Seq<Option<usize>>)
    ensures
        count_none(s) <= s.len(),
    decreases s.len(),
{
    if s.len() > 0 {
        lemma_count_none_le_len(s.drop_last());
    }
}

/// The bytes a scripted reply carries, if it is not a scripted failure.
pub open spec fn reply_view(r: Option<Vec<u8>>) -> Option<Seq<u8>> {
    match r {
        Some(v) => Some(v@),
        None => None,
    }
}

} // verus!
