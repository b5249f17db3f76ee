//! Recording commands during a frame and writing them into the game's command buffers.
use vstd::prelude::*;
use vstd::string::StringSliceAdditionalSpecFns;
use vstd::utf8::encode_utf8;
use crate::bwapi_wrapper::command::UnitCommand;
use crate::bwapi_wrapper::position::fits_i32;
use crate::types::{color_value, text_size_value, Color, TextSize};

verus! {

/// The capacity of the string table.
pub const MAX_STRINGS: i32 = 20000;

/// The capacity of the shape buffer.
pub const MAX_SHAPES: i32 = 40000;

/// The capacity of the game command buffer.
pub const MAX_COMMANDS: i32 = 20000;

/// The capacity of the unit command buffer.
pub const MAX_UNIT_COMMANDS: i32 = 20000;

/// The size of one entry of the string table, terminating zero included.
pub const STRING_SIZE: usize = 1024;

/// The kinds of game commands.
#[derive(Clone, Copy, Debug, PartialEq, Eq, Structural)]
pub enum CommandType {
    NoneType,
    SetScreenPosition,
    PingMinimap,
    EnableFlag,
    Printf,
    SendText,
    PauseGame,
    ResumeGame,
    LeaveGame,
    RestartGame,
    SetLocalSpeed,
    SetLatCom,
    SetGui,
    SetFrameSkip,
    SetMap,
    SetAllies,
    SetVision,
    SetCommandOptimizerLevel,
    SetRevealAll,
}

/// The kinds of shapes that can be drawn.
#[derive(Clone, Copy, Debug, PartialEq, Eq, Structural)]
pub enum ShapeType {
    NoneType,
    Text,
    Box,
    Triangle,
    Circle,
    Ellipse,
    Dot,
    Line,
}

/// What the coordinates of a shape are relative to.
#[derive(Clone, Copy, Debug, PartialEq, Eq, Structural)]
pub enum CoordinateType {
    NoneType,
    Screen,
    /// Relative to the map (named `Map` in Broodwar).
    OnMap,
    Mouse,
}

/// A command to the game itself, with two arguments.
#[derive(Clone, Copy, Debug, PartialEq, Eq)]
pub struct GameCommand {
    pub type_: CommandType,
    pub value1: i32,
    pub value2: i32,
}

/// A shape to draw, with its coordinates and extra arguments.
#[derive(Clone, Copy, Debug, PartialEq, Eq)]
pub struct Shape {
    pub type_: ShapeType,
    pub ctype: CoordinateType,
    pub x1: i32,
    pub y1: i32,
    pub x2: i32,
    pub y2: i32,
    pub extra1: i32,
    pub extra2: i32,
    pub color: i32,
    pub is_solid: bool,
}

/// The command buffers that the game reads after each frame: fixed-size tables with a count
/// of the entries in use.
pub struct GameData {
    pub commands: Vec<GameCommand>,
    pub command_count: i32,
    pub unit_commands: Vec<UnitCommand>,
    pub unit_command_count: i32,
    pub shapes: Vec<Shape>,
    pub shape_count: i32,
    pub strings: Vec<Vec<u8>>,
    pub string_count: i32,
}

/// The contents of the command buffers.
pub struct GameDataModel {
    pub commands: Seq<GameCommand>,
    pub command_count: int,
    pub unit_commands: Seq<UnitCommand>,
    pub unit_command_count: int,
    pub shapes: Seq<Shape>,
    pub shape_count: int,
    pub strings: Seq<Seq<u8>>,
    pub string_count: int,
}

impl View for GameData {
    type V = GameDataModel;

    open spec fn view(&self) -> GameDataModel {
        GameDataModel {
            commands: self.commands@,
            command_count: self.command_count as int,
            unit_commands: self.unit_commands@,
            unit_command_count: self.unit_command_count as int,
            shapes: self.shapes@,
            shape_count: self.shape_count as int,
            strings: self.strings@.map_values(|s: Vec<u8>| s@),
            string_count: self.string_count as int,
        }
    }
}

/// The buffers have their full sizes and the counts lie within them.
pub open spec fn buffers_ok(m: GameDataModel) -> bool {
    &&& m.commands.len() == MAX_COMMANDS
    &&& m.unit_commands.len() == MAX_UNIT_COMMANDS
    &&& m.shapes.len() == MAX_SHAPES
    &&& m.strings.len() == MAX_STRINGS
    &&& forall|i: int| 0 <= i < m.strings.len() ==> #[trigger] m.strings[i].len() == STRING_SIZE
    &&& 0 <= m.command_count <= MAX_COMMANDS
    &&& 0 <= m.unit_command_count <= MAX_UNIT_COMMANDS
    &&& 0 <= m.shape_count <= MAX_SHAPES
    &&& 0 <= m.string_count <= MAX_STRINGS
}

/// The buffers after adding game command `c`.
pub open spec fn with_command(m: GameDataModel, c: GameCommand) -> GameDataModel {
    GameDataModel {
        commands: m.commands.update(m.command_count, c),
        command_count: m.command_count + 1,
        ..m
    }
}

/// The buffers after adding shape `s`.
pub open spec fn with_shape(m: GameDataModel, s: Shape) -> GameDataModel {
    GameDataModel { shapes: m.shapes.update(m.shape_count, s), shape_count: m.shape_count + 1, ..m }
}

/// The string table entry holding `bytes`, a terminating zero, and then the rest of `old`.
pub open spec fn string_entry(old: Seq<u8>, bytes: Seq<u8>) -> Seq<u8> {
    bytes.push(0u8) + old.skip(bytes.len() as int + 1)
}

/// The buffers after adding the string `bytes`; it takes index `m.string_count`.
pub open spec fn with_string(m: GameDataModel, bytes: Seq<u8>) -> GameDataModel {
    GameDataModel {
        strings: m.strings.update(m.string_count, string_entry(m.strings[m.string_count], bytes)),
        string_count: m.string_count + 1,
        ..m
    }
}

/// `bytes` can go into the string table: it holds no zero and leaves room for one.
pub open spec fn storable(bytes: Seq<u8>) -> bool {
    &&& bytes.len() < STRING_SIZE
    &&& forall|i: int| 0 <= i < bytes.len() ==> bytes[i] != 0u8
}

/// A deferred command that needs the string table.
pub enum Command {
    DrawText { ctype: CoordinateType, x: i32, y: i32, string: String },
    SendText { message: String, to_allies: bool },
    SetMap(String),
}

/// The string of a deferred command, as bytes.
pub open spec fn command_bytes(c: Command) -> Seq<u8> {
    match c {
        Command::DrawText { string, .. } => encode_utf8(string@),
        Command::SendText { message, .. } => encode_utf8(message@),
        Command::SetMap(s) => encode_utf8(s@),
    }
}

/// The text shape that draws string number `id` at `(x, y)`.
pub open spec fn text_shape(ctype: CoordinateType, x: i32, y: i32, id: int) -> Shape {
    Shape {
        type_: ShapeType::Text,
        ctype,
        x1: x,
        x2: 0,
        y1: y,
        y2: 0,
        extra1: id as i32,
        extra2: text_size_value(TextSize::Default) as i32,
        color: color_value(Color::Black) as i32,
        is_solid: false,
    }
}

/// The buffers after applying one deferred command.
pub open spec fn with_deferred(m: GameDataModel, c: Command) -> GameDataModel {
    let id = m.string_count;
    let m1 = with_string(m, command_bytes(c));
    match c {
        Command::DrawText { ctype, x, y, .. } => with_shape(m1, text_shape(ctype, x, y, id)),
        Command::SendText { to_allies, .. } => with_command(
            m1,
            GameCommand { type_: CommandType::SendText, value1: id as i32, value2: if to_allies { 1 } else { 0 } },
        ),
        Command::SetMap(_) => with_command(
            m1,
            GameCommand { type_: CommandType::SetMap, value1: id as i32, value2: 0 },
        ),
    }
}

/// One deferred command fits into the buffers.
pub open spec fn deferred_fits(m: GameDataModel, c: Command) -> bool {
    &&& m.string_count < MAX_STRINGS
    &&& storable(command_bytes(c))
    &&& match c {
        Command::DrawText { .. } => m.shape_count < MAX_SHAPES,
        _ => m.command_count < MAX_COMMANDS,
    }
}

/// The buffers after applying the deferred commands `cs` in order.
pub open spec fn with_all_deferred(m: GameDataModel, cs: Seq<Command>) -> GameDataModel
    decreases cs.len(),
{
    if cs.len() == 0 {
        m
    } else {
        with_deferred(with_all_deferred(m, cs.drop_last()), cs.last())
    }
}

/// All deferred commands `cs` fit into the buffers, one after the other.
pub open spec fn all_deferred_fit(m: GameDataModel, cs: Seq<Command>) -> bool
    decreases cs.len(),
{
    if cs.len() == 0 {
        true
    } else {
        all_deferred_fit(m, cs.drop_last()) && deferred_fits(with_all_deferred(m, cs.drop_last()), cs.last())
    }
}

/// The buffers after adding the shapes `ss` in order.
pub open spec fn with_all_shapes(m: GameDataModel, ss: Seq<Shape>) -> GameDataModel
    decreases ss.len(),
{
    if ss.len() == 0 {
        m
    } else {
        with_shape(with_all_shapes(m, ss.drop_last()), ss.last())
    }
}

/// The result of copying `src` into `dst` at `count`.
pub open spec fn spliced<T>(dst: Seq<T>, count: int, src: Seq<T>) -> Seq<T> {
    dst.take(count) + src + dst.skip(count + src.len())
}

/// The commands recorded during one frame.
pub struct Commands {
    pub commands: Vec<Command>,
    pub game_commands: Vec<GameCommand>,
    pub unit_commands: Vec<UnitCommand>,
    pub shapes: Vec<Shape>,
}

impl Commands {
    /// No commands.
    pub fn new() -> (r: Self)
        ensures
            r.commands@.len() == 0,
            r.game_commands@.len() == 0,
            r.unit_commands@.len() == 0,
            r.shapes@.len() == 0,
    {
        Commands { commands: Vec::new(), game_commands: Vec::new(), unit_commands: Vec::new(), shapes: Vec::new() }
    }

    /// Writes the commands into the game's buffers.
    pub fn commit(self, to: &mut GameData)
        requires
            buffers_ok(old(to)@),
            applicable(old(to)@, self),
        ensures
            final(to)@ == applied(old(to)@, self),
            buffers_ok(final(to)@),
    {
        let mut applier = CommandApplier { data: GameData::empty() };
        std::mem::swap(&mut applier.data, to);
        applier.apply_commands(self);
        std::mem::swap(&mut applier.data, to);
    }
}

impl GameData {
    /// Buffers of size zero.
    pub fn empty() -> (r: Self)
        ensures
            r.commands@.len() == 0,
            r.unit_commands@.len() == 0,
            r.shapes@.len() == 0,
            r.strings@.len() == 0,
            r.command_count == 0,
            r.unit_command_count == 0,
            r.shape_count == 0,
            r.string_count == 0,
    {
        GameData {
            commands: Vec::new(),
            command_count: 0,
            unit_commands: Vec::new(),
            unit_command_count: 0,
            shapes: Vec::new(),
            shape_count: 0,
            strings: Vec::new(),
            string_count: 0,
        }
    }
}

/// The buffers after copying in the game and unit commands of `c`.
pub open spec fn with_copied(m: GameDataModel, c: Commands) -> GameDataModel {
    GameDataModel {
        commands: spliced(m.commands, m.command_count, c.game_commands@),
        command_count: m.command_count + c.game_commands@.len(),
        unit_commands: spliced(m.unit_commands, m.unit_command_count, c.unit_commands@),
        unit_command_count: m.unit_command_count + c.unit_commands@.len(),
        ..m
    }
}

/// The buffers after writing all of `c`: the game commands, the unit commands, the deferred
/// commands with their strings, and then the shapes.
pub open spec fn applied(m: GameDataModel, c: Commands) -> GameDataModel {
    with_all_shapes(with_all_deferred(with_copied(m, c), c.commands@), c.shapes@)
}

/// All of `c` fits into the buffers.
pub open spec fn applicable(m: GameDataModel, c: Commands) -> bool {
    &&& m.command_count + c.game_commands@.len() < MAX_COMMANDS
    &&& m.unit_command_count + c.unit_commands@.len() < MAX_UNIT_COMMANDS
    &&& all_deferred_fit(with_copied(m, c), c.commands@)
    &&& with_all_deferred(with_copied(m, c), c.commands@).shape_count + c.shapes@.len() <= MAX_SHAPES
}

/// Writes recorded commands into the game's buffers.
pub struct CommandApplier {
    pub data: GameData,
}

impl CommandApplier {
    /// Copies `src` into `dst` after the `*count` entries in use, when they fit with room to spare.
    pub fn add_commands<T: Copy>(limit: i32, count: &mut i32, src: &[T], dst: &mut Vec<T>) -> (r: Result<(), ()>)
        requires
            0 <= *old(count) <= limit,
            limit <= old(dst)@.len(),
        ensures
            r is Ok <==> *old(count) + src@.len() < limit,
            r is Ok ==> *final(count) == *old(count) + src@.len()
                && final(dst)@ == spliced(old(dst)@, *old(count) as int, src@),
            r is Err ==> *final(count) == *old(count) && final(dst)@ == old(dst)@,
    {
        let room = (limit - *count) as usize;
        let copy_amount = if room < src.len() { room } else { src.len() };
        if *count + copy_amount as i32 >= limit {
            return Err(());
        }
        let command_count = *count as usize;
        let ghost d0 = dst@;
        let mut i: usize = 0;
        while i < copy_amount
            invariant
                copy_amount == src@.len(),
                command_count + copy_amount < limit <= dst@.len(),
                dst@.len() == d0.len(),
                i <= copy_amount,
                dst@ =~= d0.take(command_count as int) + src@.take(i as int) + d0.skip(command_count + i),
            decreases copy_amount - i,
        {
            let v = src[i];
            dst.set(command_count + i, v);
            i = i + 1;
            assert(dst@ =~= d0.take(command_count as int) + src@.take(i as int) + d0.skip(command_count + i));
        }
        assert(src@.take(copy_amount as int) =~= src@);
        *count = *count + copy_amount as i32;
        Ok(())
    }

    /// Writes all recorded commands: the game commands, the unit commands, the deferred
    /// commands with their strings, and then the shapes.
    pub fn apply_commands(&mut self, commands: Commands)
        requires
            buffers_ok(old(self).data@),
            applicable(old(self).data@, commands),
        ensures
            final(self).data@ == applied(old(self).data@, commands),
            buffers_ok(final(self).data@),
    {
        let ghost m0 = self.data@;
        let r1 = CommandApplier::add_commands(
            MAX_COMMANDS,
            &mut self.data.command_count,
            commands.game_commands.as_slice(),
            &mut self.data.commands,
        );
        match r1 {
            Ok(()) => {},
            Err(()) => {
                assert(false);
            },
        }
        let r2 = CommandApplier::add_commands(
            MAX_UNIT_COMMANDS,
            &mut self.data.unit_command_count,
            commands.unit_commands.as_slice(),
            &mut self.data.unit_commands,
        );
        match r2 {
            Ok(()) => {},
            Err(()) => {
                assert(false);
            },
        }
        let ghost m1 = self.data@;
        assert(m1 =~= with_copied(m0, commands));
        let mut i: usize = 0;
        while i < commands.commands.len()
            invariant
                i <= commands.commands@.len(),
                buffers_ok(self.data@),
                all_deferred_fit(m1, commands.commands@),
                self.data@ == with_all_deferred(m1, commands.commands@.take(i as int)),
            decreases commands.commands@.len() - i,
        {
            proof {
                lemma_fit_prefix(m1, commands.commands@, i as int + 1);
                assert(commands.commands@.take(i as int + 1).drop_last() =~= commands.commands@.take(i as int));
            }
            match &commands.commands[i] {
                Command::DrawText { ctype, x, y, string } => self.draw_text(*ctype, *x, *y, string.as_str()),
                Command::SendText { message, to_allies } => self.send_text(message.as_str(), *to_allies),
                Command::SetMap(map_file_name) => self.set_map(map_file_name.as_str()),
            }
            i = i + 1;
        }
        assert(commands.commands@.take(commands.commands@.len() as int) =~= commands.commands@);
        let ghost m2 = self.data@;
        let mut j: usize = 0;
        while j < commands.shapes.len()
            invariant
                j <= commands.shapes@.len(),
                buffers_ok(self.data@),
                m2.shape_count + commands.shapes@.len() <= MAX_SHAPES,
                self.data@ == with_all_shapes(m2, commands.shapes@.take(j as int)),
            decreases commands.shapes@.len() - j,
        {
            proof {
                assert(commands.shapes@.take(j as int + 1).drop_last() =~= commands.shapes@.take(j as int));
                lemma_shape_count(m2, commands.shapes@.take(j as int));
            }
            self.add_shape(commands.shapes[j]);
            j = j + 1;
        }
        assert(commands.shapes@.take(commands.shapes@.len() as int) =~= commands.shapes@);
    }

    /// Adds `string` to the string table, with a terminating zero, and returns its index.
    pub fn add_string(&mut self, string: &str) -> (r: usize)
        requires
            buffers_ok(old(self).data@),
            old(self).data.string_count < MAX_STRINGS,
            storable(string.spec_bytes()),
        ensures
            r == old(self).data.string_count,
            final(self).data@ == with_string(old(self).data@, string.spec_bytes()),
            buffers_ok(final(self).data@),
    {
        let bytes = string.as_bytes();
        let string_count = self.data.string_count as usize;
        let ghost m = self.data@;
        assert(m.strings[string_count as int] == self.data.strings@[string_count as int]@);
        let mut entry: Vec<u8> = Vec::new();
        let mut i: usize = 0;
        while i < bytes.len()
            invariant
                i <= bytes@.len(),
                entry@ == bytes@.take(i as int),
            decreases bytes@.len() - i,
        {
            entry.push(bytes[i]);
            i = i + 1;
            assert(entry@ =~= bytes@.take(i as int));
        }
        entry.push(0u8);
        let ghost head = entry@;
        assert(head =~= bytes@.push(0u8));
        let old_entry = &self.data.strings[string_count];
        let mut j: usize = bytes.len() + 1;
        while j < old_entry.len()
            invariant
                bytes@.len() + 1 <= j <= old_entry@.len(),
                old_entry@.len() == STRING_SIZE,
                entry@ == head + old_entry@.subrange(bytes@.len() as int + 1, j as int),
            decreases old_entry@.len() - j,
        {
            entry.push(old_entry[j]);
            j = j + 1;
            assert(entry@ =~= head + old_entry@.subrange(bytes@.len() as int + 1, j as int));
        }
        assert(entry@ =~= string_entry(m.strings[string_count as int], bytes@));
        self.data.strings.set(string_count, entry);
        self.data.string_count = self.data.string_count + 1;
        assert(self.data@.strings =~= with_string(m, bytes@).strings);
        string_count
    }

    /// Adds `shape` to the shape buffer.
    pub fn add_shape(&mut self, shape: Shape)
        requires
            buffers_ok(old(self).data@),
            old(self).data.shape_count < MAX_SHAPES,
        ensures
            final(self).data@ == with_shape(old(self).data@, shape),
            buffers_ok(final(self).data@),
    {
        let shape_count = self.data.shape_count as usize;
        self.data.shapes.set(shape_count, shape);
        self.data.shape_count = self.data.shape_count + 1;
    }

    /// Adds `cmd` to the game command buffer.
    pub fn add_command(&mut self, cmd: GameCommand)
        requires
            buffers_ok(old(self).data@),
            old(self).data.command_count < MAX_COMMANDS,
        ensures
            final(self).data@ == with_command(old(self).data@, cmd),
            buffers_ok(final(self).data@),
    {
        let command_count = self.data.command_count as usize;
        self.data.commands.set(command_count, cmd);
        self.data.command_count = self.data.command_count + 1;
    }

    /// Stores the map file name and adds the command that switches to that map.
    pub fn set_map(&mut self, map_file_name: &str)
        requires
            buffers_ok(old(self).data@),
            old(self).data.string_count < MAX_STRINGS,
            old(self).data.command_count < MAX_COMMANDS,
            storable(map_file_name.spec_bytes()),
        ensures
            final(self).data@ == with_command(
                with_string(old(self).data@, map_file_name.spec_bytes()),
                GameCommand { type_: CommandType::SetMap, value1: old(self).data.string_count, value2: 0 },
            ),
            buffers_ok(final(self).data@),
    {
        let string_index = self.add_string(map_file_name);
        self.add_command(GameCommand { type_: CommandType::SetMap, value1: string_index as i32, value2: 0 })
    }

    /// Stores the message and adds the command that sends it, to allies only if `to_allies`.
    pub fn send_text(&mut self, message: &str, to_allies: bool)
        requires
            buffers_ok(old(self).data@),
            old(self).data.string_count < MAX_STRINGS,
            old(self).data.command_count < MAX_COMMANDS,
            storable(message.spec_bytes()),
        ensures
            final(self).data@ == with_command(
                with_string(old(self).data@, message.spec_bytes()),
                GameCommand {
                    type_: CommandType::SendText,
                    value1: old(self).data.string_count,
                    value2: if to_allies { 1 } else { 0 },
                },
            ),
            buffers_ok(final(self).data@),
    {
        let string_index = self.add_string(message);
        self.add_command(GameCommand {
            type_: CommandType::SendText,
            value1: string_index as i32,
            value2: if to_allies { 1 } else { 0 },
        })
    }

    /// Stores the text and adds the shape that draws it at `(x1, y1)`.
    pub fn draw_text(&mut self, ctype: CoordinateType, x1: i32, y1: i32, string: &str)
        requires
            buffers_ok(old(self).data@),
            old(self).data.string_count < MAX_STRINGS,
            old(self).data.shape_count < MAX_SHAPES,
            storable(string.spec_bytes()),
        ensures
            final(self).data@ == with_shape(
                with_string(old(self).data@, string.spec_bytes()),
                text_shape(ctype, x1, y1, old(self).data.string_count as int),
            ),
            buffers_ok(final(self).data@),
    {
        let id = self.add_string(string);
        let shape = Shape {
            type_: ShapeType::Text,
            ctype,
            x1,
            x2: 0,
            y1,
            y2: 0,
            extra1: id as i32,
            extra2: TextSize::Default.value(),
            color: Color::Black.value(),
            is_solid: false,
        };
        self.add_shape(shape);
    }
}

/// Every prefix of deferred commands that fit also fits.
pub proof fn lemma_fit_prefix(m: GameDataModel, cs: Seq<Command>, n: int)
    requires
        all_deferred_fit(m, cs),
        0 < n <= cs.len(),
    ensures
        all_deferred_fit(m, cs.take(n)),
        deferred_fits(with_all_deferred(m, cs.take(n - 1)), cs[n - 1]),
    decreases cs.len(),
{
    if n == cs.len() {
        assert(cs.take(n) =~= cs);
        assert(cs.take(n - 1) =~= cs.drop_last());
    } else {
        assert(cs.drop_last().take(n) =~= cs.take(n));
        assert(cs.drop_last().take(n - 1) =~= cs.take(n - 1));
        lemma_fit_prefix(m, cs.drop_last(), n);
    }
}

/// Adding shapes raises the shape count by their number.
pub proof fn lemma_shape_count(m: GameDataModel, ss: Seq<Shape>)
    ensures
        with_all_shapes(m, ss).shape_count == m.shape_count + ss.len(),
    decreases ss.len(),
{
    if ss.len() > 0 {
        lemma_shape_count(m, ss.drop_last());
    }
}

} // verus!
