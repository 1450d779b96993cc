use vstd::prelude::*;

verus! {

/// How often a client asks the server for its frame number, in ms.
pub const FRAME_REQUEST_PERIOD: u128 = 1000;

/// A client's estimate of the server's frame number. The server steps its
/// scene every 10 ms; the client counts its own frames between requests.
#[derive(Debug, Clone, Copy, PartialEq, Eq, Structural)]
pub struct FrameSync {
    pub frame_number: u128,
    pub frames_passed_since_request: u128,
    pub last_frame_request: u128,
}

impl FrameSync {
    /// Starts counting at time `now` (ms).
    pub fn new(now: u128) -> (sync: Self)
        ensures
            sync == (FrameSync { frame_number: 0, frames_passed_since_request: 0, last_frame_request: now }),
    {
        FrameSync { frame_number: 0, frames_passed_since_request: 0, last_frame_request: now }
    }

    /// Counts one drawn frame at time `now`; when more than a second has
    /// passed since the last request, starts a new one and says so.
    pub fn tick(&mut self, now: u128) -> (request: bool)
        requires
            old(self).frames_passed_since_request < u128::MAX,
            old(self).last_frame_request <= now,
        ensures
            request <==> now - old(self).last_frame_request > FRAME_REQUEST_PERIOD,
            final(self).frame_number == old(self).frame_number,
            request ==> final(self).frames_passed_since_request == 0,
            request ==> final(self).last_frame_request == now,
            !request ==> final(self).frames_passed_since_request
                == old(self).frames_passed_since_request + 1,
            !request ==> final(self).last_frame_request == old(self).last_frame_request,
    {
        self.frames_passed_since_request += 1;
        if now - self.last_frame_request > FRAME_REQUEST_PERIOD {
            self.last_frame_request = now;
            self.frames_passed_since_request = 0;
            true
        } else {
            false
        }
    }

    /// Takes the frame number the server answered with: the answer is about
    /// half of the frames drawn since the request old, so half of them is
    /// added.
    pub fn on_frame_number(&mut self, number: u128)
        requires
            number + old(self).frames_passed_since_request / 2 <= u128::MAX,
        ensures
            final(self).frame_number == number + old(self).frames_passed_since_request / 2,
            final(self).frames_passed_since_request == 0,
            final(self).last_frame_request == old(self).last_frame_request,
    {
        self.frame_number = number + self.frames_passed_since_request / 2;
        self.frames_passed_since_request = 0;
    }

    /// How many frames of a scene sent at frame `scene_frame` must be replayed
    /// to catch up with this client; none for a scene from the future.
    pub fn frames_to_replay(&self, scene_frame: u128) -> (frames: u128)
        ensures
            frames == (if self.frame_number >= scene_frame {
                self.frame_number - scene_frame
            } else {
                0
            }),
    {
        self.frame_number.saturating_sub(scene_frame)
    }
}

} // verus!
