//! Framebuffer shipper: announces resolution changes to the host and
//! uploads each frame's pixels.

use vstd::prelude::*;

verus! {

/// A display frame: its size and its pixel bytes.
pub struct Frame {
    pub width: u16,
    pub height: u16,
    pub data: Vec<u8>,
}

pub struct FrameView {
    pub width: u16,
    pub height: u16,
    pub data: Seq<u8>,
}

impl View for Frame {
    type V = FrameView;

    open spec fn view(&self) -> FrameView {
        FrameView { width: self.width, height: self.height, data: self.data@ }
    }
}

/// A video call for the embedding program to make on the host.
pub enum VideoCall {
    /// `did_open_video(width, height)`.
    DidOpenVideo { width: u16, height: u16 },
    /// `blit` of these bytes; the host copies them before returning.
    Blit(Vec<u8>),
}

pub enum VideoEvent {
    DidOpenVideo(u16, u16),
    Blit(Seq<u8>),
}

impl View for VideoCall {
    type V = VideoEvent;

    open spec fn view(&self) -> VideoEvent {
        match self {
            VideoCall::DidOpenVideo { width, height } => VideoEvent::DidOpenVideo(*width, *height),
            VideoCall::Blit(b) => VideoEvent::Blit(b@),
        }
    }
}

pub open spec fn dims(f: FrameView) -> (u16, u16) {
    (f.width, f.height)
}

/// The calls for one frame, given the last announced size.
pub open spec fn frame_calls(cur: (u16, u16), f: FrameView) -> Seq<VideoEvent> {
    (if dims(f) != cur {
        seq![VideoEvent::DidOpenVideo(f.width, f.height)]
    } else {
        Seq::empty()
    }) + (if f.data.len() > 0 {
        seq![VideoEvent::Blit(f.data)]
    } else {
        Seq::empty()
    })
}

/// The last announced size after shipping `fs`.
pub open spec fn size_after(cur: (u16, u16), fs: Seq<FrameView>) -> (u16, u16) {
    if fs.len() == 0 {
        cur
    } else {
        dims(fs.last())
    }
}

/// The calls for the frames `fs` shipped in order.
pub open spec fn frames_calls(cur: (u16, u16), fs: Seq<FrameView>) -> Seq<VideoEvent>
    decreases fs.len(),
{
    if fs.len() == 0 {
        Seq::empty()
    } else {
        frames_calls(cur, fs.drop_last()) + frame_calls(size_after(cur, fs.drop_last()), fs.last())
    }
}

pub open spec fn views(fs: Seq<Frame>) -> Seq<FrameView> {
    fs.map_values(|f: Frame| f@)
}

/// The sizes announced among a sequence of video calls, in order.
pub open spec fn announced(ev: Seq<VideoEvent>) -> Seq<(u16, u16)>
    decreases ev.len(),
{
    if ev.len() == 0 {
        Seq::empty()
    } else {
        announced(ev.drop_last()) + match ev.last() {
            VideoEvent::DidOpenVideo(w, h) => seq![(w, h)],
            _ => Seq::empty(),
        }
    }
}

/// A sequence of sizes with each run of equal neighbours kept once.
pub open spec fn runs(ds: Seq<(u16, u16)>) -> Seq<(u16, u16)>
    decreases ds.len(),
{
    if ds.len() <= 1 {
        ds
    } else {
        runs(ds.drop_last()) + if ds.last() != ds[ds.len() - 2] {
            seq![ds.last()]
        } else {
            Seq::empty()
        }
    }
}

pub open spec fn sizes(fs: Seq<FrameView>) -> Seq<(u16, u16)> {
    fs.map_values(|f: FrameView| dims(f))
}

proof fn lemma_announced_add(a: Seq<VideoEvent>, b: Seq<VideoEvent>)
    ensures
        announced(a + b) == announced(a) + announced(b),
    decreases b.len(),
{
    if b.len() == 0 {
        assert(a + b =~= a);
        assert(announced(a) + announced(b) =~= announced(a));
    } else {
        assert((a + b).drop_last() =~= a + b.drop_last());
        lemma_announced_add(a, b.drop_last());
        assert(announced(a + b) =~= announced(a) + announced(b));
    }
}

proof fn lemma_announced_frame(cur: (u16, u16), f: FrameView)
    ensures
        announced(frame_calls(cur, f)) == if dims(f) != cur {
            seq![dims(f)]
        } else {
            Seq::<(u16, u16)>::empty()
        },
{
    let a: Seq<VideoEvent> = if dims(f) != cur {
        seq![VideoEvent::DidOpenVideo(f.width, f.height)]
    } else {
        Seq::empty()
    };
    let b: Seq<VideoEvent> = if f.data.len() > 0 {
        seq![VideoEvent::Blit(f.data)]
    } else {
        Seq::empty()
    };
    lemma_announced_add(a, b);
    reveal_with_fuel(announced, 2);
    assert(a.len() == 1 ==> a.drop_last() =~= Seq::<VideoEvent>::empty());
    assert(b.len() == 1 ==> b.drop_last() =~= Seq::<VideoEvent>::empty());
    assert(announced(a) + announced(b) =~= if dims(f) != cur {
        seq![dims(f)]
    } else {
        Seq::<(u16, u16)>::empty()
    });
}

proof fn lemma_announced_runs(cur: (u16, u16), fs: Seq<FrameView>)
    requires
        fs.len() > 0,
        dims(fs[0]) != cur,
    ensures
        announced(frames_calls(cur, fs)) == runs(sizes(fs)),
    decreases fs.len(),
{
    let init = fs.drop_last();
    lemma_announced_add(frames_calls(cur, init), frame_calls(size_after(cur, init), fs.last()));
    lemma_announced_frame(size_after(cur, init), fs.last());
    assert(sizes(fs).drop_last() =~= sizes(init));
    if fs.len() == 1 {
        assert(announced(Seq::<VideoEvent>::empty()) == Seq::<(u16, u16)>::empty());
        assert(announced(frames_calls(cur, fs)) =~= runs(sizes(fs)));
    } else {
        lemma_announced_runs(cur, init);
        assert(size_after(cur, init) == sizes(fs)[fs.len() - 2]);
        assert(announced(frames_calls(cur, fs)) =~= runs(sizes(fs)));
    }
}

/// Starting from a fresh shipper, the sizes announced to the host over any
/// frame stream are the stream's sizes in order with repeats of the one
/// before dropped, starting with the first frame's size. (A first frame of
/// 0 by 0 matches the fresh shipper and is not announced.)
pub proof fn lemma_announces_size_changes(fs: Seq<FrameView>)
    requires
        fs.len() > 0 ==> dims(fs[0]) != (0u16, 0u16),
    ensures
        announced(frames_calls((0u16, 0u16), fs)) == runs(sizes(fs)),
{
    if fs.len() > 0 {
        lemma_announced_runs((0u16, 0u16), fs);
    } else {
        assert(sizes(fs) =~= Seq::<(u16, u16)>::empty());
    }
}

/// Ships frames to the host, tracking the size it last announced.
pub struct Sender {
    current_width: u16,
    current_height: u16,
}

impl View for Sender {
    type V = (u16, u16);

    closed spec fn view(&self) -> (u16, u16) {
        (self.current_width, self.current_height)
    }
}

impl Sender {
    /// A shipper that has announced nothing: the first frame of any other
    /// size than 0 by 0 is announced.
    pub fn new() -> (r: Self)
        ensures
            r@ == (0u16, 0u16),
    {
        Sender { current_width: 0, current_height: 0 }
    }

    /// Ships one frame: announces its size where it differs from the last
    /// one, then uploads its pixels where there are any.
    pub fn send_frame(&mut self, frame: Frame) -> (r: Vec<VideoCall>)
        ensures
            r@.map_values(|c: VideoCall| c@) == frame_calls(old(self)@, frame@),
            final(self)@ == dims(frame@),
    {
        let ghost f = frame@;
        let mut calls: Vec<VideoCall> = Vec::new();
        if frame.width != self.current_width || frame.height != self.current_height {
            calls.push(VideoCall::DidOpenVideo { width: frame.width, height: frame.height });
            self.current_width = frame.width;
            self.current_height = frame.height;
        }
        let data = frame.data;
        if data.len() > 0 {
            calls.push(VideoCall::Blit(data));
        }
        assert(calls@.map_values(|c: VideoCall| c@) =~= frame_calls(old(self)@, f));
        calls
    }

    /// Ships every frame that became ready since the last tick, in order.
    pub fn tick(&mut self, frames: Vec<Frame>) -> (r: Vec<VideoCall>)
        ensures
            r@.map_values(|c: VideoCall| c@) == frames_calls(old(self)@, views(frames@)),
            final(self)@ == size_after(old(self)@, views(frames@)),
    {
        let ghost all = views(frames@);
        let ghost start = self@;
        let total = frames.len();
        let mut rest = frames;
        let mut calls: Vec<VideoCall> = Vec::new();
        let mut done: usize = 0;
        while rest.len() > 0
            invariant
                done + views(rest@).len() == all.len(),
                all.len() == total,
                views(rest@) =~= all.subrange(done as int, all.len() as int),
                calls@.map_values(|c: VideoCall| c@) == frames_calls(
                    start,
                    all.subrange(0, done as int),
                ),
                self@ == size_after(start, all.subrange(0, done as int)),
            decreases rest.len(),
        {
            let ghost before = calls@;
            let ghost r0 = rest@;
            let frame = rest.remove(0);
            let ghost fv = frame@;
            let mut more = self.send_frame(frame);
            let ghost m = more@;
            calls.append(&mut more);
            proof {
                assert(views(r0)[0] == r0[0]@);
                assert(views(rest@) =~= views(r0).drop_first());
                let prefix = all.subrange(0, done as int + 1);
                assert(prefix.drop_last() =~= all.subrange(0, done as int));
                assert(fv == all[done as int]);
                assert(prefix.last() == fv);
                assert(calls@ == before + m);
                assert(calls@.map_values(|c: VideoCall| c@) =~= before.map_values(
                    |c: VideoCall| c@,
                ) + m.map_values(|c: VideoCall| c@));
            }
            done = done + 1;
        }
        assert(all.subrange(0, done as int) =~= all);
        calls
    }
}

} // verus!
