use vstd::prelude::*;
use crate::uniforms::Uniforms;

verus! {

/// Why a kernel could not be set up.
#[derive(Debug, Clone, Copy, PartialEq, Eq, Structural)]
pub enum ComputeError {
    /// Storage buffers were given without their sizes.
    MissingBufferSizes,
    /// The list of storage buffers and the list of their sizes differ in length.
    BufferCountAndBufferSizeCountMismatch,
}

/// The device buffers of the simulation.
#[derive(Debug, Clone, Copy, PartialEq, Eq, Structural)]
pub enum BufferId {
    PositionIn,
    PositionOut,
    VelocityIn,
    VelocityOut,
    BinCount,
    PrefixSum,
    Uniforms,
    /// The host-visible buffer that read-backs are copied to.
    Staging,
}

/// The device programs of the simulation.
#[derive(Debug, Clone, Copy, PartialEq, Eq, Structural)]
pub enum Shader {
    /// Advances every particle by the forces on it.
    Update,
    /// Tallies the particles of every bin.
    Count,
    /// Turns the tallies into the first slot of every bin.
    Scan,
    /// Moves every particle to a slot of its bin.
    Reorder,
}

/// What one binding slot of a kernel is laid out as.
#[derive(Debug, Clone, Copy, PartialEq, Eq, Structural)]
pub enum BindingKind {
    Storage { dynamic: bool, read_only: bool },
    Uniform { dynamic: bool },
}

/// What one binding slot of a kernel is bound to.
#[derive(Debug, Clone, Copy, PartialEq, Eq, Structural)]
pub enum Binding {
    /// A storage buffer, bound from its start over `size` bytes.
    Storage { buffer: BufferId, size: u64 },
    /// The uniform buffer.
    Uniform { buffer: BufferId },
}

/// One command of a command stream. A command takes effect when the stream
/// that holds it is submitted.
#[derive(Debug, Clone, Copy, PartialEq, Eq, Structural)]
pub enum Command {
    /// Runs `groups` work groups of a program, along one dimension.
    Dispatch { shader: Shader, groups: u32 },
    /// Copies the first `size` bytes of `source` over those of `destination`.
    CopyBuffer { source: BufferId, destination: BufferId, size: u64 },
    /// Copies `size` zero bytes from a transient buffer over the start of `buffer`.
    ClearBuffer { buffer: BufferId, size: u64 },
    /// Stages the record and copies it over the live uniform buffer.
    WriteUniforms { data: Uniforms },
}

/// The commands recorded for one submission, in the order they will run.
#[derive(Debug)]
pub struct CommandEncoder {
    pub commands: Vec<Command>,
}

impl View for CommandEncoder {
    type V = Seq<Command>;

    open spec fn view(&self) -> Seq<Command> {
        self.commands@
    }
}

impl CommandEncoder {
    /// A stream that holds no command.
    pub fn new() -> (encoder: CommandEncoder)
        ensures
            encoder@ == Seq::<Command>::empty(),
    {
        CommandEncoder { commands: Vec::new() }
    }

    /// Appends `command` to the stream.
    pub fn record(&mut self, command: Command)
        ensures
            final(self)@ == old(self)@.push(command),
    {
        self.commands.push(command);
    }
}

/// `BindGroupLayoutBuilder` of nannou: the layout of a kernel's binding slots
/// while it is put together. What it holds is spoken of as `layout_entries`.
#[verifier::external_type_specification]
#[verifier::external_body]
pub struct ExLayoutBuilder(nannou::wgpu::BindGroupLayoutBuilder);

/// The bindings that a layout builder holds, in the order they were added,
/// each by its kind: a storage or a uniform buffer, with its flags.
pub uninterp spec fn layout_entries(builder: nannou::wgpu::BindGroupLayoutBuilder) -> Seq<BindingKind>;

/// `BindGroupLayoutBuilder::new` of nannou: a builder that holds no binding.
#[verifier::external_body]
fn layout_new() -> (builder: nannou::wgpu::BindGroupLayoutBuilder)
    ensures
        layout_entries(builder) == Seq::<BindingKind>::empty(),
{
    nannou::wgpu::BindGroupLayoutBuilder::new()
}

/// `BindGroupLayoutBuilder::storage_buffer` of nannou, for the compute stage:
/// the builder keeps its bindings and gains one storage binding behind them.
#[verifier::external_body]
fn layout_storage_buffer(
    builder: nannou::wgpu::BindGroupLayoutBuilder,
    dynamic: bool,
    read_only: bool,
) -> (next: nannou::wgpu::BindGroupLayoutBuilder)
    ensures
        layout_entries(next) == layout_entries(builder).push(BindingKind::Storage { dynamic, read_only }),
{
    builder.storage_buffer(nannou::wgpu::ShaderStages::COMPUTE, dynamic, read_only)
}

/// `BindGroupLayoutBuilder::uniform_buffer` of nannou, for the compute stage:
/// the builder keeps its bindings and gains one uniform binding behind them.
#[verifier::external_body]
fn layout_uniform_buffer(builder: nannou::wgpu::BindGroupLayoutBuilder, dynamic: bool) -> (next:
    nannou::wgpu::BindGroupLayoutBuilder)
    ensures
        layout_entries(next) == layout_entries(builder).push(BindingKind::Uniform { dynamic }),
{
    builder.uniform_buffer(nannou::wgpu::ShaderStages::COMPUTE, dynamic)
}

/// The storage bindings of the first `upto` buffers, each with its size.
pub open spec fn storage_bindings(buffers: Seq<BufferId>, sizes: Seq<u64>, upto: int) -> Seq<Binding> {
    Seq::new(upto as nat, |i: int| Binding::Storage { buffer: buffers[i], size: sizes[i] })
}

/// The bindings of a kernel, slot by slot: the storage buffers in the order
/// given, then the uniform buffer where there is one.
pub open spec fn planned_bindings(
    buffers: Option<Vec<BufferId>>,
    buffer_sizes: Option<Vec<u64>>,
    uniform_buffer: Option<BufferId>,
) -> Seq<Binding> {
    let storage = match (buffers, buffer_sizes) {
        (Some(b), Some(s)) => storage_bindings(b@, s@, b@.len() as int),
        _ => Seq::<Binding>::empty(),
    };
    match uniform_buffer {
        Some(u) => storage.push(Binding::Uniform { buffer: u }),
        None => storage,
    }
}

/// The layout of a binding: storage buffers are bound for reading and
/// writing, and no binding has a dynamic offset.
pub open spec fn kind_of(binding: Binding) -> BindingKind {
    match binding {
        Binding::Storage { .. } => BindingKind::Storage { dynamic: false, read_only: false },
        Binding::Uniform { .. } => BindingKind::Uniform { dynamic: false },
    }
}

/// The layout of a list of bindings, slot by slot.
pub open spec fn layout_of(bindings: Seq<Binding>) -> Seq<BindingKind> {
    Seq::new(bindings.len(), |i: int| kind_of(bindings[i]))
}

/// A compute program together with what its binding slots are bound to.
#[derive(Debug)]
pub struct Compute {
    /// The program that a dispatch runs.
    pub shader: Shader,
    /// Slot `i` of the program is bound to `bindings[i]`.
    pub bindings: Vec<Binding>,
    /// The layout of the slots, ready to be built on a device.
    pub layout: nannou::wgpu::BindGroupLayoutBuilder,
}

impl Compute {
    /// The layout describes the bindings slot by slot. This holds of a kernel
    /// until its layout is taken to be built on a device.
    pub open spec fn wf(&self) -> bool {
        layout_entries(self.layout) == layout_of(self.bindings@)
    }

    /// Sets up a kernel for `shader` over any number of storage buffers and
    /// one optional uniform buffer.
    pub fn new(
        buffers: Option<Vec<BufferId>>,
        buffer_sizes: Option<Vec<u64>>,
        uniform_buffer: Option<BufferId>,
        shader: Shader,
    ) -> (result: Result<Compute, ComputeError>)
        ensures
            match result {
                Ok(kernel) => {
                    &&& buffers is Some ==> buffer_sizes is Some && buffers->Some_0@.len()
                        == buffer_sizes->Some_0@.len()
                    &&& kernel.shader == shader
                    &&& kernel.bindings@ == planned_bindings(buffers, buffer_sizes, uniform_buffer)
                    &&& kernel.wf()
                },
                Err(ComputeError::MissingBufferSizes) => buffers is Some && buffer_sizes is None,
                Err(ComputeError::BufferCountAndBufferSizeCountMismatch) => buffers is Some && buffer_sizes
                    is Some && buffers->Some_0@.len() != buffer_sizes->Some_0@.len(),
            },
    {
        let mut layout = layout_new();
        let mut bindings: Vec<Binding> = Vec::new();
        if let Some(b) = buffers.as_ref() {
            if let Some(s) = buffer_sizes.as_ref() {
                if b.len() != s.len() {
                    return Err(ComputeError::BufferCountAndBufferSizeCountMismatch);
                }
                let storage_dynamic = false;
                let storage_readonly = false;
                let mut i: usize = 0;
                while i < b.len()
                    invariant
                        i <= b.len(),
                        b.len() == s.len(),
                        !storage_dynamic,
                        !storage_readonly,
                        bindings@ == storage_bindings(b@, s@, i as int),
                        layout_entries(layout) == layout_of(bindings@),
                    decreases b.len() - i,
                {
                    layout = layout_storage_buffer(layout, storage_dynamic, storage_readonly);
                    bindings.push(Binding::Storage { buffer: b[i], size: s[i] });
                    i = i + 1;
                    assert(bindings@ =~= storage_bindings(b@, s@, i as int));
                    assert(layout_entries(layout) =~= layout_of(bindings@));
                }
            } else {
                return Err(ComputeError::MissingBufferSizes);
            }
        }
        assert(layout_entries(layout) =~= layout_of(bindings@));
        if let Some(u) = uniform_buffer {
            let uniform_dynamic = false;
            layout = layout_uniform_buffer(layout, uniform_dynamic);
            bindings.push(Binding::Uniform { buffer: u });
            assert(layout_entries(layout) =~= layout_of(bindings@));
        }
        Ok(Compute { shader, bindings, layout })
    }

    /// Records one dispatch of the kernel over `num_groups` work groups.
    pub fn compute(&self, encoder: &mut CommandEncoder, num_groups: u32)
        ensures
            final(encoder)@ == old(encoder)@.push(
                Command::Dispatch { shader: self.shader, groups: num_groups },
            ),
    {
        encoder.record(Command::Dispatch { shader: self.shader, groups: num_groups });
    }
}

} // verus!
