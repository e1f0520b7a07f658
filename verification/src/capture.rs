use vstd::prelude::*;

use crate::errors::CoreError;
use crate::screenshot::{Rect, VncScreenshot};
use crate::session::VncConnection;

verus! {

/// The closed set of server events a session recognizes. The driver maps
/// every transport notification onto one of these; anything outside the set
/// maps to `Unknown` and is fatal while a capture is in flight.
#[derive(Debug)]
pub enum DisplayEvent {
    /// The desktop was resized to the given width and height.
    Resize(u16, u16),
    /// A raw pixel block for the given rectangle.
    PutPixels(Rect, Vec<u8>),
    /// The end of one update frame.
    EndOfFrame,
    /// Any event outside the supported protocol subset.
    Unknown,
}

/// Where a full-frame capture stands.
#[derive(Clone, Copy, Debug, PartialEq, Eq, Structural)]
pub enum CapturePhase {
    /// Pending events are being drained (only resizes matter); no update
    /// request is in flight.
    Draining,
    /// A full-area update request of the given rectangle is in flight.
    Requested(Rect),
}

/// The full-frame capture state machine. A capture drains pending resize
/// notifications, requests a full-area update sized to the current
/// dimensions, and completes only on a pixel block whose rectangle exactly
/// matches the request; a resize invalidates the in-flight request, which
/// must then be reissued at the new size.
#[derive(Debug)]
pub struct CaptureMachine {
    pub phase: CapturePhase,
}

impl CaptureMachine {
    /// Start a capture, in the draining phase.
    pub fn begin() -> (r: CaptureMachine)
        ensures
            r.phase is Draining,
    {
        CaptureMachine { phase: CapturePhase::Draining }
    }

    /// Absorb one already-pending event before requesting an update: a resize
    /// updates the session's dimensions, every other event is ignored.
    pub fn drain_event(&mut self, conn: &mut VncConnection, ev: &DisplayEvent)
        requires
            old(self).phase is Draining,
        ensures
            final(self).phase is Draining,
            final(conn).record == old(conn).record,
            final(conn).debug == old(conn).debug,
            match ev {
                DisplayEvent::Resize(w, h) => final(conn).width == w && final(conn).height == h,
                _ => *final(conn) == *old(conn),
            },
    {
        match ev {
            DisplayEvent::Resize(w, h) => {
                conn.width = *w;
                conn.height = *h;
            },
            _ => {},
        }
    }

    /// Issue (or reissue) the full-area update request, sized to the
    /// session's current dimensions. The returned rectangle is what the
    /// driver must request from the server.
    pub fn request(&mut self, conn: &VncConnection) -> (r: Rect)
        ensures
            r == (Rect { left: 0, top: 0, width: conn.width, height: conn.height }),
            final(self).phase == CapturePhase::Requested(r),
    {
        let r = Rect { left: 0, top: 0, width: conn.width, height: conn.height };
        self.phase = CapturePhase::Requested(r);
        r
    }

    /// Dispatch one event while a request is in flight.
    ///
    /// A resize updates the dimensions and invalidates the request (the
    /// machine returns to draining; the driver must reissue). A pixel block
    /// matching the requested rectangle completes the capture, provided its
    /// buffer holds exactly one byte per pixel; a wrongly sized buffer is a
    /// transport error. A pixel block for any other rectangle and an
    /// end-of-frame marker are ignored. An unrecognized event is a transport
    /// error.
    pub fn on_event(&mut self, conn: &mut VncConnection, ev: DisplayEvent) -> (r: Result<
        Option<VncScreenshot>,
        CoreError,
    >)
        requires
            old(self).phase is Requested,
        ensures
            final(conn).record == old(conn).record,
            final(conn).debug == old(conn).debug,
            match ev {
                DisplayEvent::Resize(w, h) => {
                    &&& r == Result::<Option<VncScreenshot>, CoreError>::Ok(
                        Option::<VncScreenshot>::None,
                    )
                    &&& final(conn).width == w
                    &&& final(conn).height == h
                    &&& final(self).phase is Draining
                },
                DisplayEvent::PutPixels(rect, pixels) => {
                    &&& *final(conn) == *old(conn)
                    &&& if rect != old(self).phase->Requested_0 {
                        r == Result::<Option<VncScreenshot>, CoreError>::Ok(
                            Option::<VncScreenshot>::None,
                        ) && *final(self) == *old(self)
                    } else if pixels@.len() == rect.width as int * rect.height as int {
                        &&& r is Ok && r->Ok_0 is Some
                        &&& {
                            let shot = r->Ok_0->0;
                            &&& shot.wf()
                            &&& shot.width == rect.width
                            &&& shot.height == rect.height
                            &&& shot.data@ == pixels@
                        }
                        &&& final(self).phase is Draining
                    } else {
                        r == Result::<Option<VncScreenshot>, CoreError>::Err(CoreError::Transport)
                    }
                },
                DisplayEvent::EndOfFrame => {
                    &&& r == Result::<Option<VncScreenshot>, CoreError>::Ok(
                        Option::<VncScreenshot>::None,
                    )
                    &&& *final(self) == *old(self)
                    &&& *final(conn) == *old(conn)
                },
                DisplayEvent::Unknown => {
                    &&& r == Result::<Option<VncScreenshot>, CoreError>::Err(CoreError::Transport)
                    &&& *final(conn) == *old(conn)
                },
            },
    {
        match ev {
            DisplayEvent::Resize(w, h) => {
                conn.width = w;
                conn.height = h;
                self.phase = CapturePhase::Draining;
                Ok(None)
            },
            DisplayEvent::PutPixels(rect, pixels) => {
                let req = match self.phase {
                    CapturePhase::Requested(req) => req,
                    CapturePhase::Draining => {
                        proof {
                            assert(false);
                        }
                        return Err(CoreError::Transport);
                    },
                };
                if rect != req {
                    return Ok(None);
                }
                proof {
                    assert((rect.width as int) * (rect.height as int) < 0x1_0000_0000)
                        by (nonlinear_arith)
                        requires
                            rect.width <= 0xffff,
                            rect.height <= 0xffff,
                    ;
                }
                if pixels.len() == rect.width as usize * rect.height as usize {
                    self.phase = CapturePhase::Draining;
                    Ok(Some(VncScreenshot { data: pixels, width: rect.width, height: rect.height }))
                } else {
                    Err(CoreError::Transport)
                }
            },
            DisplayEvent::EndOfFrame => Ok(None),
            DisplayEvent::Unknown => Err(CoreError::Transport),
        }
    }
}

} // verus!
