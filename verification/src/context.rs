//! The command stream and the binding state it implies.

use vstd::prelude::*;
use crate::consts;
use crate::pixels::{PixelData, PixelSeq};

verus! {

/// One call into the driver. Fields are the call's arguments as the driver
/// takes them; float arguments are bit patterns of 32-bit floats.
#[allow(inconsistent_fields)]
#[derive(Clone, Copy, Debug, PartialEq, Eq, Structural)]
pub enum Command {
    /// Selects the texture unit that later texture bindings go to.
    ActiveTexture { unit: u32 },
    BindTexture { target: u32, texture: u32 },
    TexParameteri { target: u32, name: u32, value: i32 },
    /// Reserves immutable storage for the texture bound to `target`.
    TexStorage2D { target: u32, levels: u32, internal_format: u32, width: u32, height: u32 },
    TexStorage3D {
        target: u32,
        levels: u32,
        internal_format: u32,
        width: u32,
        height: u32,
        depth: u32,
    },
    /// Uploads the pixel data stored under `upload` in the stream's uploads
    /// into a rectangle of one level.
    TexSubImage2D {
        target: u32,
        level: u32,
        x: u32,
        y: u32,
        width: u32,
        height: u32,
        format: u32,
        data_type: u32,
        upload: usize,
    },
    GenerateMipmap { target: u32 },
    DeleteTexture { texture: u32 },
    /// Binds a framebuffer object, or the window's framebuffer for name 0.
    BindFramebuffer { target: u32, framebuffer: u32 },
    DeleteFramebuffer { framebuffer: u32 },
    /// Routes fragment outputs `0..count` to the colour attachments of the
    /// same index.
    DrawBuffers { count: u32 },
    FramebufferTexture2D {
        target: u32,
        attachment: u32,
        texture_target: u32,
        texture: u32,
        level: u32,
    },
    FramebufferTextureLayer { target: u32, attachment: u32, texture: u32, level: u32, layer: u32 },
    ColorMask { red: bool, green: bool, blue: bool, alpha: bool },
    DepthMask { flag: bool },
    StencilMask { mask: u32 },
    ClearColor { red: u32, green: u32, blue: u32, alpha: u32 },
    ClearDepth { depth: u32 },
    ClearStencil { value: i32 },
    Clear { mask: u32 },
    /// Reads a rectangle of the read framebuffer into the buffer that the
    /// operation which recorded this call returned.
    ReadPixels { x: i32, y: i32, width: u32, height: u32, format: u32, data_type: u32 },
    /// Draws the texture bound to unit 0 (layer `layer` of it, for an array
    /// texture) over the rectangle, as colour or as depth.
    CopyEffect {
        texture_target: u32,
        layer: u32,
        depth: bool,
        x: i32,
        y: i32,
        width: u32,
        height: u32,
    },
    DrawArrays { mode: u32, first: u32, count: u32 },
}

impl Command {
    /// The framebuffer bound for drawing once the driver has run this call,
    /// given the one bound before: a bind to the draw point (or to both
    /// points) puts its framebuffer there, and deleting the framebuffer that
    /// is bound puts the window's framebuffer back.
    pub open spec fn draw_binding(self, before: u32) -> u32 {
        match self {
            Command::BindFramebuffer { target, framebuffer } => if target
                == consts::DRAW_FRAMEBUFFER || target == consts::FRAMEBUFFER {
                framebuffer
            } else {
                before
            },
            Command::DeleteFramebuffer { framebuffer } => if framebuffer == before {
                consts::NO_OBJECT
            } else {
                before
            },
            _ => before,
        }
    }

    /// The texture unit selected once the driver has run this call.
    pub open spec fn selected_unit(self, before: u32) -> u32 {
        match self {
            Command::ActiveTexture { unit } => unit,
            _ => before,
        }
    }

    /// The bindings once the driver has run this call, given those before.
    pub open spec fn rebinds(self, before: Bindings) -> Bindings {
        Bindings {
            draw_framebuffer: self.draw_binding(before.draw_framebuffer),
            read_framebuffer: self.read_binding(before.read_framebuffer),
            active_texture: self.selected_unit(before.active_texture),
        }
    }

    /// The framebuffer bound for reading once the driver has run this call.
    pub open spec fn read_binding(self, before: u32) -> u32 {
        match self {
            Command::BindFramebuffer { target, framebuffer } => if target
                == consts::READ_FRAMEBUFFER || target == consts::FRAMEBUFFER {
                framebuffer
            } else {
                before
            },
            Command::DeleteFramebuffer { framebuffer } => if framebuffer == before {
                consts::NO_OBJECT
            } else {
                before
            },
            _ => before,
        }
    }
}

/// The driver state that scoped operations put back: which framebuffers are
/// bound and which texture unit is selected.
#[derive(Clone, Copy, Debug, PartialEq, Eq, Structural)]
pub struct Bindings {
    /// The framebuffer bound for drawing; zero for the window's.
    pub draw_framebuffer: u32,
    /// The framebuffer bound for reading; zero for the window's.
    pub read_framebuffer: u32,
    /// The selected texture unit, as its enumerant.
    pub active_texture: u32,
}

impl Bindings {
    /// The bindings of a driver that has just been created.
    pub open spec fn initial() -> Bindings {
        Bindings {
            draw_framebuffer: consts::NO_OBJECT,
            read_framebuffer: consts::NO_OBJECT,
            active_texture: consts::TEXTURE0,
        }
    }
}

/// The bindings a driver holds after it has run `commands`, in order, from
/// the bindings `start`.
pub open spec fn replay(start: Bindings, commands: Seq<Command>) -> Bindings
    decreases commands.len(),
{
    if commands.len() == 0 {
        start
    } else {
        commands.last().rebinds(replay(start, commands.drop_last()))
    }
}

/// Running one more call after `commands` rebinds what `commands` left.
pub proof fn lemma_replay_push(start: Bindings, commands: Seq<Command>, command: Command)
    ensures
        replay(start, commands.push(command)) == command.rebinds(replay(start, commands)),
{
    assert(commands.push(command).drop_last() =~= commands);
}

/// A context as contracts see it.
pub struct ContextView {
    /// The calls recorded and not yet taken, oldest first.
    pub commands: Seq<Command>,
    /// The pixel data that recorded uploads refer to, by position.
    pub uploads: Seq<PixelSeq>,
    /// The bindings the driver holds once every recorded call has run.
    pub bindings: Bindings,
    /// The bindings the driver holds before the first recorded call runs.
    pub origin: Bindings,
}

impl ContextView {
    /// Whether the tracked bindings are what the recorded calls lead to.
    pub open spec fn faithful(self) -> bool {
        self.bindings == replay(self.origin, self.commands)
    }

    /// This context after one more call has been recorded.
    pub open spec fn recorded(self, command: Command) -> ContextView {
        ContextView {
            commands: self.commands.push(command),
            uploads: self.uploads,
            bindings: command.rebinds(self.bindings),
            origin: self.origin,
        }
    }

    /// This context after pixel data has been stored for a later upload.
    pub open spec fn stored(self, data: PixelSeq) -> ContextView {
        ContextView { uploads: self.uploads.push(data), ..self }
    }

    /// This context after its recorded calls and uploads have been taken:
    /// the stream is empty, and the calls that follow start from the
    /// bindings that the calls taken lead to.
    pub open spec fn drained(self) -> ContextView {
        ContextView {
            commands: Seq::empty(),
            uploads: Seq::empty(),
            bindings: self.bindings,
            origin: self.bindings,
        }
    }

    /// This context after the bindings `saved` have been put back: both
    /// framebuffers are bound again and the unit is selected again, whether
    /// or not anything had changed them.
    pub open spec fn restored(self, saved: Bindings) -> ContextView {
        self.recorded(
            Command::BindFramebuffer {
                target: consts::DRAW_FRAMEBUFFER,
                framebuffer: saved.draw_framebuffer,
            },
        ).recorded(
            Command::BindFramebuffer {
                target: consts::READ_FRAMEBUFFER,
                framebuffer: saved.read_framebuffer,
            },
        ).recorded(Command::ActiveTexture { unit: saved.active_texture })
    }

    /// A context that has recorded nothing, at the driver's initial bindings.
    pub open spec fn initial() -> ContextView {
        ContextView {
            commands: Seq::empty(),
            uploads: Seq::empty(),
            bindings: Bindings::initial(),
            origin: Bindings::initial(),
        }
    }
}

/// Whatever a context has recorded, putting saved bindings back leaves
/// exactly those bindings.
pub proof fn lemma_restored_bindings(context: ContextView, saved: Bindings)
    ensures
        context.restored(saved).bindings == saved,
        context.restored(saved).uploads == context.uploads,
        context.restored(saved).commands.len() == context.commands.len() + 3,
{
}

/// Recording a call, storing data and taking the stream all keep the
/// tracked bindings faithful to the recorded calls.
pub proof fn lemma_faithful_is_kept(context: ContextView, command: Command, data: PixelSeq)
    requires
        context.faithful(),
    ensures
        context.recorded(command).faithful(),
        context.stored(data).faithful(),
        context.drained().faithful(),
        ContextView::initial().faithful(),
{
    lemma_replay_push(context.origin, context.commands, command);
}

/// The stream and the bindings it leads to.
struct Stream {
    commands: Vec<Command>,
    uploads: Vec<PixelData>,
    bindings: Bindings,
    origin: Ghost<Bindings>,
}

impl Stream {
    spec fn model(self) -> ContextView {
        ContextView {
            commands: self.commands@,
            uploads: Seq::new(self.uploads@.len(), |i: int| self.uploads@[i]@),
            bindings: self.bindings,
            origin: self.origin@,
        }
    }

    fn idle() -> (stream: Stream)
        ensures
            stream.model() == ContextView::initial(),
    {
        let stream = Stream {
            commands: Vec::new(),
            uploads: Vec::new(),
            bindings: Bindings {
                draw_framebuffer: consts::NO_OBJECT,
                read_framebuffer: consts::NO_OBJECT,
                active_texture: consts::TEXTURE0,
            },
            origin: Ghost(Bindings::initial()),
        };
        assert(stream.model().uploads =~= Seq::empty());
        stream
    }
}

/// Records the driver calls that operations decide on and tracks the
/// bindings those calls leave. The tracked bindings are at all times what
/// the recorded calls lead to from the bindings the driver held when the
/// stream was last taken.
pub struct Context {
    stream: Stream,
}

impl View for Context {
    type V = ContextView;

    closed spec fn view(&self) -> ContextView {
        self.stream.model()
    }
}

impl Context {
    /// The tracked bindings are what the recorded calls lead to.
    #[verifier::type_invariant]
    pub open spec fn tracks_the_stream(self) -> bool {
        self@.faithful()
    }

    /// A context for a driver that has just been created: nothing is
    /// recorded, the window's framebuffer is bound for drawing and reading
    /// and the first texture unit is selected.
    pub fn new() -> (context: Context)
        ensures
            context@ == ContextView::initial(),
    {
        Context { stream: Stream::idle() }
    }

    /// Appends one call to the stream.
    pub fn record(&mut self, command: Command)
        ensures
            final(self)@ == old(self)@.recorded(command),
    {
        proof {
            use_type_invariant(&*self);
            lemma_replay_push(self@.origin, self@.commands, command);
        }
        let mut stream = Stream::idle();
        std::mem::swap(&mut self.stream, &mut stream);
        match command {
            Command::BindFramebuffer { target, framebuffer } => {
                if target == consts::DRAW_FRAMEBUFFER || target == consts::FRAMEBUFFER {
                    stream.bindings.draw_framebuffer = framebuffer;
                }
                if target == consts::READ_FRAMEBUFFER || target == consts::FRAMEBUFFER {
                    stream.bindings.read_framebuffer = framebuffer;
                }
            },
            Command::DeleteFramebuffer { framebuffer } => {
                if framebuffer == stream.bindings.draw_framebuffer {
                    stream.bindings.draw_framebuffer = consts::NO_OBJECT;
                }
                if framebuffer == stream.bindings.read_framebuffer {
                    stream.bindings.read_framebuffer = consts::NO_OBJECT;
                }
            },
            Command::ActiveTexture { unit } => {
                stream.bindings.active_texture = unit;
            },
            _ => {},
        }
        stream.commands.push(command);
        assert(stream.model().uploads =~= old(self)@.uploads);
        self.stream = stream;
    }

    /// Stores pixel data for an upload and returns the position that the
    /// upload call refers to it by.
    pub fn store(&mut self, data: PixelData) -> (upload: usize)
        ensures
            final(self)@ == old(self)@.stored(data@),
            upload == old(self)@.uploads.len(),
    {
        proof {
            use_type_invariant(&*self);
        }
        let mut stream = Stream::idle();
        std::mem::swap(&mut self.stream, &mut stream);
        let upload = stream.uploads.len();
        stream.uploads.push(data);
        assert(stream.model().uploads =~= old(self)@.uploads.push(data@));
        self.stream = stream;
        upload
    }

    /// Puts the bindings `saved` back: both framebuffers are bound again and
    /// the unit is selected again.
    pub fn restore(&mut self, saved: Bindings)
        ensures
            final(self)@ == old(self)@.restored(saved),
            final(self)@.bindings == saved,
    {
        self.record(
            Command::BindFramebuffer {
                target: consts::DRAW_FRAMEBUFFER,
                framebuffer: saved.draw_framebuffer,
            },
        );
        self.record(
            Command::BindFramebuffer {
                target: consts::READ_FRAMEBUFFER,
                framebuffer: saved.read_framebuffer,
            },
        );
        self.record(Command::ActiveTexture { unit: saved.active_texture });
    }

    /// The recorded calls, oldest first.
    pub fn commands(&self) -> (commands: &Vec<Command>)
        ensures
            commands@ == self@.commands,
    {
        &self.stream.commands
    }

    /// The stored pixel data at position `upload`, if there is any.
    pub fn upload(&self, upload: usize) -> (data: Option<&PixelData>)
        ensures
            match data {
                Some(data) => upload < self@.uploads.len() && data@ == self@.uploads[upload as int],
                None => upload >= self@.uploads.len(),
            },
    {
        if upload < self.stream.uploads.len() {
            Some(&self.stream.uploads[upload])
        } else {
            None
        }
    }

    /// The bindings the driver holds once the recorded calls have run: what
    /// the recorded calls lead to from the bindings the driver held before
    /// them.
    pub fn bindings(&self) -> (bindings: Bindings)
        ensures
            bindings == self@.bindings,
            bindings == replay(self@.origin, self@.commands),
    {
        proof {
            use_type_invariant(self);
        }
        self.stream.bindings
    }

    /// The framebuffer that drawing goes to once the recorded calls have run.
    pub fn draw_framebuffer(&self) -> (framebuffer: u32)
        ensures
            framebuffer == self@.bindings.draw_framebuffer,
    {
        self.stream.bindings.draw_framebuffer
    }

    /// The framebuffer that reading comes from once the recorded calls have run.
    pub fn read_framebuffer(&self) -> (framebuffer: u32)
        ensures
            framebuffer == self@.bindings.read_framebuffer,
    {
        self.stream.bindings.read_framebuffer
    }

    /// The texture unit that is selected once the recorded calls have run.
    pub fn active_texture(&self) -> (unit: u32)
        ensures
            unit == self@.bindings.active_texture,
    {
        self.stream.bindings.active_texture
    }

    /// Hands the recorded calls and their pixel data over for execution and
    /// empties the stream. The bindings stay: they are what the driver will
    /// hold once the calls handed over have run.
    pub fn take(&mut self) -> (taken: (Vec<Command>, Vec<PixelData>))
        ensures
            taken.0@ == old(self)@.commands,
            taken.1@.len() == old(self)@.uploads.len(),
            forall|i: int|
                0 <= i < taken.1@.len() ==> (#[trigger] taken.1@[i])@ == old(self)@.uploads[i],
            final(self)@ == old(self)@.drained(),
    {
        let mut stream = Stream::idle();
        std::mem::swap(&mut self.stream, &mut stream);
        let fresh = Stream {
            commands: Vec::new(),
            uploads: Vec::new(),
            bindings: stream.bindings,
            origin: Ghost(stream.bindings),
        };
        assert(fresh.model().uploads =~= Seq::empty());
        self.stream = fresh;
        (stream.commands, stream.uploads)
    }
}

} // verus!
