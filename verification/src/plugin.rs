//! The plugin lifecycle: one instance per host filter session, which loads
//! its effect configuration at most once — on the first frame — and then
//! runs every frame through the conversion pipeline, counting the frames it
//! processed.

use vstd::prelude::*;

use crate::config::EffectConfig;
use crate::config::json_parses;
use crate::config::load_config;
use crate::config::preset_top_object;
use crate::config::preset_use_field;
use crate::config::spec_config_decision;
use crate::error::ConfigError;
use crate::field::FieldMode;
use crate::field::spec_select;
use crate::frame::spec_process_frame;
use crate::frame::to_planar;
use crate::frame::write_packed;

verus! {

/// The characters a byte sequence decodes to as UTF-8, when it is valid.
pub uninterp spec fn utf8_decode(bytes: Seq<u8>) -> Option<Seq<char>>;

/// Relies on str::from_utf8: it accepts exactly the byte sequences that are
/// valid UTF-8, and the decoded characters depend on the bytes alone.
#[verifier::external_body]
fn decode_utf8(bytes: &Vec<u8>) -> (r: Option<String>)
    ensures
        r is Some <==> utf8_decode(bytes@) is Some,
        r matches Some(s) ==> utf8_decode(bytes@) == Some(s@),
{
    match std::str::from_utf8(bytes.as_slice()) {
        Ok(s) => Some(s.to_string()),
        Err(_) => None,
    }
}

/// The lifecycle outcome the loading rule owes for given preset text:
/// Ready with the decoded configuration exactly when the codec accepts the
/// text as an object whose `use_field` member is well formed or absent,
/// and the parse failure otherwise.
pub open spec fn spec_load_outcome(text: Seq<char>) -> LifecycleState {
    match spec_config_decision(
        json_parses(text),
        preset_top_object(text),
        preset_use_field(text),
    ) {
        Ok(cfg) => LifecycleState::Ready(cfg),
        Err(e) => LifecycleState::Failed(e),
    }
}

/// The lifecycle of one plugin instance. The configuration load is attempted
/// exactly once, on the first frame; its outcome is permanent for the
/// instance's remaining lifetime.
#[derive(Clone, Copy, PartialEq, Eq, Structural, Debug)]
pub enum LifecycleState {
    /// No frame has arrived yet; the load has not been attempted.
    Uninitialized,
    /// The load succeeded; the configuration is cached for every later frame.
    Ready(EffectConfig),
    /// The load failed; every later frame passes through untouched.
    Failed(ConfigError),
}

/// One filter instance: the preset path parameter, the fixed frame geometry,
/// the count of frames processed so far, and the lifecycle state.
pub struct NtscPlugin {
    pub preset_path: Vec<u8>,
    pub width: usize,
    pub height: usize,
    pub frame_num: usize,
    pub state: LifecycleState,
}

impl NtscPlugin {
    /// A packed frame of this geometry fits in memory, and only a Ready
    /// instance can have processed frames.
    pub open spec fn wf(self) -> bool {
        &&& self.width * self.height * 4 <= usize::MAX
        &&& !(self.state is Ready) ==> self.frame_num == 0
    }

    /// The byte length of one packed frame for this instance.
    pub open spec fn frame_bytes(self) -> int {
        self.width * self.height * 4
    }

    /// A fresh instance for a host session of fixed geometry: empty preset
    /// path, no frames processed, load not yet attempted.
    pub fn new(width: usize, height: usize) -> (r: NtscPlugin)
        requires
            width * height * 4 <= usize::MAX,
        ensures
            r.wf(),
            r.width == width,
            r.height == height,
            r.frame_num == 0,
            r.state is Uninitialized,
            r.preset_path@ == Seq::<u8>::empty(),
    {
        NtscPlugin {
            preset_path: Vec::new(),
            width,
            height,
            frame_num: 0,
            state: LifecycleState::Uninitialized,
        }
    }

    /// The `preset` parameter: current path bytes.
    pub fn preset_path(&self) -> (r: &Vec<u8>)
        ensures
            r@ == self.preset_path@,
    {
        &self.preset_path
    }

    /// The `preset` parameter: overwrite the path. Changing it after the
    /// load was attempted has no effect on the cached configuration.
    pub fn set_preset_path(&mut self, path: Vec<u8>)
        ensures
            final(self).preset_path == path,
            final(self).width == old(self).width,
            final(self).height == old(self).height,
            final(self).frame_num == old(self).frame_num,
            final(self).state == old(self).state,
    {
        self.preset_path = path;
    }

    /// Whether the next frame will attempt the configuration load.
    pub fn needs_init(&self) -> (b: bool)
        ensures
            b == (self.state is Uninitialized),
    {
        match self.state {
            LifecycleState::Uninitialized => true,
            _ => false,
        }
    }

    /// The number of frames processed so far.
    pub fn frame_count(&self) -> (n: usize)
        ensures
            n == self.frame_num,
    {
        self.frame_num
    }

    /// Whether the instance holds a loaded configuration.
    pub fn is_ready(&self) -> (b: bool)
        ensures
            b == (self.state is Ready),
    {
        match self.state {
            LifecycleState::Ready(_) => true,
            _ => false,
        }
    }

    /// The error the load failed with, if it failed.
    pub fn failure(&self) -> (r: Option<ConfigError>)
        ensures
            self.state matches LifecycleState::Failed(e) ==> r == Some(e),
            !(self.state is Failed) ==> r is None,
    {
        match self.state {
            LifecycleState::Failed(e) => Some(e),
            _ => None,
        }
    }

    /// The loaded field mode, once Ready.
    pub fn field_mode(&self) -> (r: Option<FieldMode>)
        ensures
            self.state matches LifecycleState::Ready(cfg) ==> r == Some(cfg.field_mode),
            !(self.state is Ready) ==> r is None,
    {
        match self.state {
            LifecycleState::Ready(cfg) => Some(cfg.field_mode),
            _ => None,
        }
    }

    /// The preset path as text, when its bytes are valid UTF-8. The caller
    /// that reads the preset file resolves this path.
    pub fn preset_path_text(&self) -> (r: Option<String>)
        ensures
            r is Some <==> utf8_decode(self.preset_path@) is Some,
            r matches Some(s) ==> utf8_decode(self.preset_path@) == Some(s@),
    {
        decode_utf8(&self.preset_path)
    }

    /// The one-time configuration load. `preset_file` is the text of the
    /// preset file, or None when it could not be read. A path that is not
    /// UTF-8 fails with `InvalidPathEncoding`, an unreadable file with
    /// `IoError`, rejected text with `ConfigParseError`; otherwise the
    /// instance becomes Ready. Either way the attempt is never repeated.
    pub fn initialize(&mut self, preset_file: Option<String>)
        requires
            old(self).wf(),
            old(self).state is Uninitialized,
        ensures
            final(self).wf(),
            final(self).width == old(self).width,
            final(self).height == old(self).height,
            final(self).preset_path == old(self).preset_path,
            final(self).frame_num == 0,
            !(final(self).state is Uninitialized),
            utf8_decode(old(self).preset_path@) is None ==> final(self).state
                == LifecycleState::Failed(ConfigError::InvalidPathEncoding),
            utf8_decode(old(self).preset_path@) is Some && preset_file is None ==> final(self).state == LifecycleState::Failed(ConfigError::IoError),
            utf8_decode(old(self).preset_path@) is Some ==> (preset_file matches Some(text)
                ==> final(self).state == spec_load_outcome(text@)),
    {
        match decode_utf8(&self.preset_path) {
            None => {
                self.state = LifecycleState::Failed(ConfigError::InvalidPathEncoding);
            },
            Some(_path_text) => {
                match preset_file {
                    None => {
                        self.state = LifecycleState::Failed(ConfigError::IoError);
                    },
                    Some(text) => {
                        match load_config(text.as_str()) {
                            Ok(cfg) => {
                                self.state = LifecycleState::Ready(cfg);
                            },
                            Err(e) => {
                                self.state = LifecycleState::Failed(e);
                            },
                        }
                    },
                }
            },
        }
    }

    /// Runs one frame through the conversion pipeline under a loaded
    /// configuration: select the field for this frame index, convert the
    /// packed input to planar form, and reconstruct the packed output from
    /// it. The invocation point for the external effect engine sits between
    /// the two conversions, transforming the planar frame in place; no
    /// engine is linked here, so the planar frame passes through unchanged.
    pub fn apply_effect(&self, cfg: &EffectConfig, input_frame: &Vec<u8>, output_frame: &mut Vec<u8>)
        requires
            self.wf(),
            input_frame@.len() == self.frame_bytes(),
            old(output_frame)@.len() == self.frame_bytes(),
        ensures
            final(output_frame)@ == spec_process_frame(
                input_frame@,
                self.width as nat,
                self.height as nat,
                spec_select(self.frame_num as nat, cfg.field_mode),
            ),
            final(output_frame)@.len() == old(output_frame)@.len(),
    {
        let field = crate::field::select(self.frame_num, cfg.field_mode);
        let planar = to_planar(input_frame, self.width, self.height, field);
        write_packed(&planar, output_frame);
    }

    /// One frame from the host. On the first call the configuration load is
    /// attempted, exactly once. A Ready instance converts the input frame to
    /// planar form with the field its configuration selects for this frame
    /// index, reconstructs the output frame from it, and counts the frame.
    /// Otherwise the output buffer is left exactly as the host supplied it
    /// and the counter does not move.
    ///
    /// `preset_file` is the preset file's text, read by the caller only for
    /// a first call (None when unreadable or not attempted).
    pub fn update_filter(
        &mut self,
        preset_file: Option<String>,
        inframe: &Vec<u8>,
        outframe: &mut Vec<u8>,
    )
        requires
            old(self).wf(),
            old(self).frame_num < usize::MAX,
            inframe@.len() == old(self).frame_bytes(),
            old(outframe)@.len() == old(self).frame_bytes(),
        ensures
            final(self).wf(),
            final(self).width == old(self).width,
            final(self).height == old(self).height,
            final(self).preset_path == old(self).preset_path,
            final(outframe)@.len() == old(outframe)@.len(),
            // The load is attempted only on the first call, and its outcome
            // is permanent.
            !(old(self).state is Uninitialized) ==> final(self).state == old(self).state,
            !(final(self).state is Uninitialized),
            old(self).state is Uninitialized ==> {
                &&& utf8_decode(old(self).preset_path@) is None ==> final(self).state
                    == LifecycleState::Failed(ConfigError::InvalidPathEncoding)
                &&& utf8_decode(old(self).preset_path@) is Some && preset_file is None ==> final(self).state == LifecycleState::Failed(ConfigError::IoError)
                &&& utf8_decode(old(self).preset_path@) is Some ==> (preset_file matches Some(
                    text,
                ) ==> final(self).state == spec_load_outcome(text@))
            },
            // A Ready instance processes the frame deterministically and
            // counts it.
            final(self).state matches LifecycleState::Ready(cfg) ==> {
                &&& final(self).frame_num == (if old(self).state is Ready {
                    old(self).frame_num + 1
                } else {
                    1int
                })
                &&& final(outframe)@ == spec_process_frame(
                    inframe@,
                    old(self).width as nat,
                    old(self).height as nat,
                    spec_select((final(self).frame_num - 1) as nat, cfg.field_mode),
                )
            },
            // Any other instance touches nothing: the output buffer stays as
            // the host supplied it and the counter stays at zero.
            !(final(self).state is Ready) ==> {
                &&& final(outframe)@ == old(outframe)@
                &&& final(self).frame_num == 0
            },
            spec_update_step(*old(self), *final(self)),
    {
        if self.needs_init() {
            self.initialize(preset_file);
        }
        let st = self.state;
        match st {
            LifecycleState::Ready(cfg) => {
                self.apply_effect(&cfg, inframe, outframe);
                self.frame_num = self.frame_num + 1;
            },
            _ => {},
        }
    }
}

/// What every update call does to the lifecycle state and the frame
/// counter, whatever its buffers and preset file were: the load outcome is
/// permanent, a processed frame adds exactly one, and an instance that is
/// not Ready has processed nothing.
pub open spec fn spec_update_step(pre: NtscPlugin, post: NtscPlugin) -> bool {
    &&& !(pre.state is Uninitialized) ==> post.state == pre.state
    &&& post.state is Ready ==> post.frame_num == (if pre.state is Ready {
        pre.frame_num + 1
    } else {
        1int
    })
    &&& !(post.state is Ready) ==> post.frame_num == 0
}

/// Once an update call has found or produced a Ready instance, every later
/// state along the run is that same Ready state, cached configuration
/// included: there is no reload and no way out of Ready.
pub proof fn lemma_ready_is_permanent(history: Seq<NtscPlugin>, k: int, j: int)
    requires
        0 <= k <= j < history.len(),
        forall|i: int|
            0 <= i < history.len() - 1 ==> spec_update_step(#[trigger] history[i], history[i + 1]),
        history[k].state is Ready,
    ensures
        history[j].state == history[k].state,
    decreases j - k,
{
    if j > k {
        lemma_ready_is_permanent(history, k, j - 1);
        assert(spec_update_step(history[j - 1], history[j - 1 + 1]));
        assert(history[j - 1 + 1] == history[j]);
    }
}

/// The frame counter after N successful update calls equals N: along any
/// run that starts at a fresh instance and whose every call processes a
/// frame, the final counter is the number of calls.
pub proof fn lemma_counter_after_successes(history: Seq<NtscPlugin>)
    requires
        history.len() >= 1,
        history[0].frame_num == 0,
        history[0].state is Uninitialized,
        forall|i: int|
            0 <= i < history.len() - 1 ==> spec_update_step(#[trigger] history[i], history[i + 1]),
        forall|i: int| 1 <= i < history.len() ==> (#[trigger] history[i].state) is Ready,
    ensures
        history.last().frame_num == history.len() - 1,
    decreases history.len(),
{
    if history.len() > 1 {
        let shorter = history.drop_last();
        assert forall|i: int|
            0 <= i < shorter.len() - 1 implies spec_update_step(
            #[trigger] shorter[i],
            shorter[i + 1],
        ) by {
            assert(spec_update_step(history[i], history[i + 1]));
            assert(shorter[i] == history[i]);
            assert(shorter[i + 1] == history[i + 1]);
        };
        assert forall|i: int| 1 <= i < shorter.len() implies (#[trigger] shorter[i].state)
            is Ready by {
            assert(history[i].state is Ready);
            assert(shorter[i] == history[i]);
        };
        lemma_counter_after_successes(shorter);
        let m = history.len() - 2;
        assert(shorter.last() == history[m]);
        assert(spec_update_step(history[m], history[m + 1]));
        assert(history[m + 1] == history.last());
    }
}

/// A failed initialization is permanent and keeps the counter at zero for
/// the rest of the run, whatever later calls bring.
pub proof fn lemma_failure_is_permanent(history: Seq<NtscPlugin>, j: int)
    requires
        0 <= j < history.len(),
        history[0].state is Failed,
        history[0].frame_num == 0,
        forall|i: int|
            0 <= i < history.len() - 1 ==> spec_update_step(#[trigger] history[i], history[i + 1]),
    ensures
        history[j].state == history[0].state,
        history[j].frame_num == 0,
    decreases j,
{
    if j > 0 {
        lemma_failure_is_permanent(history, j - 1);
        assert(spec_update_step(history[j - 1], history[j - 1 + 1]));
        assert(history[j - 1 + 1] == history[j]);
    }
}

/// A failed or never-initialized instance has processed no frames, and
/// stays that way for as long as it is not Ready.
pub proof fn lemma_unready_counter_zero(p: NtscPlugin)
    requires
        p.wf(),
        !(p.state is Ready),
    ensures
        p.frame_num == 0,
{
}

/// The pipeline is deterministic: identical frame counter, field mode and
/// input bytes give identical output bytes, whatever instance runs them.
pub proof fn lemma_pipeline_deterministic(
    frame_num1: nat,
    frame_num2: nat,
    mode1: FieldMode,
    mode2: FieldMode,
    input1: Seq<u8>,
    input2: Seq<u8>,
    w: nat,
    h: nat,
)
    requires
        frame_num1 == frame_num2,
        mode1 == mode2,
        input1 == input2,
    ensures
        spec_process_frame(input1, w, h, spec_select(frame_num1, mode1)) == spec_process_frame(
            input2,
            w,
            h,
            spec_select(frame_num2, mode2),
        ),
{
}

} // verus!
