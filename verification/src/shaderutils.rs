use vstd::prelude::*;

verus! {

/// Asks for a shader reload once every 60 frames.
pub struct ShaderReloadManager {
    needs_reload: bool,
    pub frame: usize,
}

impl ShaderReloadManager {
    /// Whether a reload has been asked for and not yet answered.
    pub closed spec fn reload_pending(&self) -> bool {
        self.needs_reload
    }

    /// The number of the next frame.
    pub closed spec fn frame_number(&self) -> usize {
        self.frame
    }
}

impl Default for ShaderReloadManager {
    fn default() -> (manager: Self)
        ensures
            !manager.reload_pending(),
            manager.frame_number() == 0,
    {
        Self { needs_reload: false, frame: 0 }
    }
}

impl ShaderReloadManager {
    /// Reports whether a reload is due, and clears the request: a request is
    /// answered once.
    pub fn needs_reload(&mut self) -> (due: bool)
        ensures
            due == old(self).reload_pending(),
            !final(self).reload_pending(),
            final(self).frame_number() == old(self).frame_number(),
    {
        if self.needs_reload {
            self.needs_reload = false;
            return true;
        }
        false
    }

    /// Advances one frame, asking for a reload on every frame whose number is a
    /// multiple of 60 (counting from 0).
    pub fn update(&mut self)
        requires
            old(self).frame_number() < usize::MAX,
        ensures
            final(self).reload_pending() == (old(self).reload_pending() || old(self).frame_number() % 60
                == 0),
            final(self).frame_number() == old(self).frame_number() + 1,
    {
        if self.frame % 60 == 0 {
            self.needs_reload = true;
        }
        self.frame += 1;
    }
}

} // verus!
