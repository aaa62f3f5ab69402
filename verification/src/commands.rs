//! Host commands: 64-byte records (16 words) uploaded ahead of a tick.
//!
//! The upload layout puts the command count in word 0, three padding words,
//! then the records at a 16-word stride. At most 64 commands go up per
//! tick; the rest are silently discarded.

use vstd::prelude::*;

verus! {

/// Maximum number of commands one tick accepts.
pub const MAX_COMMANDS: usize = 64;

/// What a command does to the cells it touches.
#[derive(Debug, Clone, Copy, PartialEq, Eq, Structural)]
pub enum CommandType {
    Noop,
    /// Place voxels of the type named by `param_0`.
    PlaceVoxel,
    /// Clear cells to empty.
    RemoveVoxel,
    /// Seed protocells with initial energy `param_0`.
    SeedProtocells,
    /// Apply a toxin of strength `param_0` to protocells.
    ApplyToxin,
}

/// The word a command type encodes to.
pub open spec fn spec_command_code(t: CommandType) -> u32 {
    match t {
        CommandType::Noop => 0,
        CommandType::PlaceVoxel => 1,
        CommandType::RemoveVoxel => 2,
        CommandType::SeedProtocells => 3,
        CommandType::ApplyToxin => 4,
    }
}

/// The command type a word decodes to; unknown words decode to `Noop`.
pub open spec fn spec_command_from_u32(v: u32) -> CommandType {
    if v == 1 { CommandType::PlaceVoxel }
    else if v == 2 { CommandType::RemoveVoxel }
    else if v == 3 { CommandType::SeedProtocells }
    else if v == 4 { CommandType::ApplyToxin }
    else { CommandType::Noop }
}

impl CommandType {
    /// The word this command type encodes to.
    pub fn code(self) -> (r: u32)
        ensures
            r == spec_command_code(self),
    {
        match self {
            CommandType::Noop => 0,
            CommandType::PlaceVoxel => 1,
            CommandType::RemoveVoxel => 2,
            CommandType::SeedProtocells => 3,
            CommandType::ApplyToxin => 4,
        }
    }

    /// Decode a command word; out-of-range words decode to `Noop`.
    pub fn from_u32(v: u32) -> (r: Self)
        ensures
            r == spec_command_from_u32(v),
    {
        match v {
            1 => Self::PlaceVoxel,
            2 => Self::RemoveVoxel,
            3 => Self::SeedProtocells,
            4 => Self::ApplyToxin,
            _ => Self::Noop,
        }
    }
}

/// One host command: an effect applied to every voxel within `radius`
/// (Chebyshev distance) of `(x, y, z)`.
#[derive(Debug, Clone, Copy)]
pub struct Command {
    pub command_type: u32,
    pub x: u32,
    pub y: u32,
    pub z: u32,
    pub radius: u32,
    pub param_0: u32,
    pub param_1: u32,
    pub padding: [u32; 9],
}

/// The 16 words a command serializes to; the last nine are always zero.
pub open spec fn spec_command_words(c: Command) -> Seq<u32> {
    seq![
        c.command_type, c.x, c.y, c.z, c.radius, c.param_0, c.param_1,
        0, 0, 0, 0, 0, 0, 0, 0, 0,
    ]
}

impl Command {
    pub fn new(
        command_type: CommandType,
        x: u32,
        y: u32,
        z: u32,
        radius: u32,
        param_0: u32,
        param_1: u32,
    ) -> (r: Self)
        ensures
            r.command_type == spec_command_code(command_type),
            r.x == x,
            r.y == y,
            r.z == z,
            r.radius == radius,
            r.param_0 == param_0,
            r.param_1 == param_1,
            forall|i: int| 0 <= i < 9 ==> r.padding[i] == 0u32,
    {
        Self {
            command_type: command_type.code(),
            x,
            y,
            z,
            radius,
            param_0,
            param_1,
            padding: [0u32; 9],
        }
    }

    /// Serialize to 16 words; words 7 to 15 are padding and always zero.
    pub fn to_words(&self) -> (r: [u32; 16])
        ensures
            r@ == spec_command_words(*self),
    {
        let r = [
            self.command_type,
            self.x,
            self.y,
            self.z,
            self.radius,
            self.param_0,
            self.param_1,
            0, 0, 0, 0, 0, 0, 0, 0, 0,
        ];
        proof {
            assert(r@ =~= spec_command_words(*self));
        }
        r
    }
}

/// How many of the queued commands one tick takes: all of them, up to 64.
pub open spec fn spec_upload_count(n: int) -> int {
    if n <= 64 { n } else { 64 }
}

/// Build the words uploaded to the command buffer: the accepted count,
/// three padding words, then the accepted records at a 16-word stride.
/// Commands beyond the first 64 are silently dropped.
pub fn encode_command_upload(cmds: &Vec<Command>) -> (r: Vec<u32>)
    ensures
        r@.len() == 4 + 16 * spec_upload_count(cmds@.len() as int),
        r@[0] == spec_upload_count(cmds@.len() as int),
        r@[1] == 0 && r@[2] == 0 && r@[3] == 0,
        forall|i: int| 0 <= i < spec_upload_count(cmds@.len() as int)
            ==> r@.subrange(4 + 16 * i, 20 + 16 * i) =~= spec_command_words(cmds@[i]),
{
    let count: usize = if cmds.len() <= MAX_COMMANDS { cmds.len() } else { MAX_COMMANDS };
    let mut r: Vec<u32> = Vec::new();
    r.push(count as u32);
    r.push(0);
    r.push(0);
    r.push(0);
    let mut i: usize = 0;
    while i < count
        invariant
            count == spec_upload_count(cmds@.len() as int),
            count <= cmds@.len(),
            0 <= i <= count,
            r@.len() == 4 + 16 * i,
            r@[0] == count && r@[1] == 0 && r@[2] == 0 && r@[3] == 0,
            forall|j: int| 0 <= j < i
                ==> r@.subrange(4 + 16 * j, 20 + 16 * j) =~= spec_command_words(cmds@[j]),
        decreases count - i,
    {
        let words = cmds[i].to_words();
        let ghost r_before = r@;
        let mut k: usize = 0;
        while k < 16
            invariant
                0 <= k <= 16,
                words@ == spec_command_words(cmds@[i as int]),
                r@ == r_before + words@.subrange(0, k as int),
                r_before.len() == 4 + 16 * i,
            decreases 16 - k,
        {
            r.push(words[k]);
            proof {
                assert(r@ =~= r_before + words@.subrange(0, k + 1 as int));
            }
            k += 1;
        }
        proof {
            assert(words@.subrange(0, 16) =~= words@);
            assert(r@.subrange(4 + 16 * (i as int), 20 + 16 * (i as int)) =~= words@);
            assert forall|j: int| 0 <= j < i
                implies r@.subrange(4 + 16 * j, 20 + 16 * j) =~= spec_command_words(cmds@[j]) by {
                assert(r@.subrange(4 + 16 * j, 20 + 16 * j)
                    =~= r_before.subrange(4 + 16 * j, 20 + 16 * j));
            }
        }
        i += 1;
    }
    r
}

/// Host-side queue accumulating commands between ticks.
pub struct CommandQueue {
    pending: Vec<Command>,
}

impl CommandQueue {
    /// The queued commands, oldest first.
    pub closed spec fn view(&self) -> Seq<Command> {
        self.pending@
    }

    pub fn new() -> (r: Self)
        ensures
            r@ =~= Seq::<Command>::empty(),
    {
        Self { pending: Vec::new() }
    }

    /// Append one command.
    pub fn push(&mut self, cmd: Command)
        ensures
            final(self)@ == old(self)@.push(cmd),
    {
        self.pending.push(cmd);
    }

    pub fn len(&self) -> (r: usize)
        ensures
            r == self@.len(),
    {
        self.pending.len()
    }

    /// Take every queued command, leaving the queue empty. The caller hands
    /// them to the first tick of the frame; the tick keeps at most 64.
    pub fn drain(&mut self) -> (r: Vec<Command>)
        ensures
            r@ == old(self)@,
            final(self)@ =~= Seq::<Command>::empty(),
    {
        let mut taken: Vec<Command> = Vec::new();
        std::mem::swap(&mut taken, &mut self.pending);
        taken
    }
}

} // verus!
