//! The CHIP-8 machine state: memory, display, stack and timers.
use vstd::prelude::*;
use ndarray::Array2;
use crate::font;

verus! {

/// Number of bytes of memory, addresses `0x000` to `0xFFF`.
pub const MEMORY_SIZE: usize = 4096;

/// Most emulators expect a game to be loaded into memory after the font,
/// starting at address `0x200` (512 in decimal).
pub const GAME_MEM_START: usize = 0x200;

/// Width of the display in pixels.
pub const DISPLAY_WIDTH: usize = 64;

/// Height of the display in pixels.
pub const DISPLAY_HEIGHT: usize = 32;

/// Number of return addresses the stack holds room for up front.
pub const STACK_CAPACITY: usize = 16;

/// A grid of pixels, each either on (`true`) or off (`false`).
#[verifier::external_body]
pub struct Screen {
    cells: Array2<bool>,
}

/// The pixels of a screen, keyed by `(x, y)`; the key set is the set of
/// valid coordinates.
pub uninterp spec fn screen_cells(s: Screen) -> Map<(int, int), bool>;

/// Every `(x, y)` with `x < width` and `y < height` maps to `value`.
pub open spec fn filled(width: int, height: int, value: bool) -> Map<(int, int), bool> {
    Map::new(|p: (int, int)| 0 <= p.0 < width && 0 <= p.1 < height, |p: (int, int)| value)
}

impl Screen {
    /// Relies on ndarray's `ArrayBase::from_elem`: an array of shape
    /// `(width, height)` with `value` in every cell. It panics only when the
    /// product of the non-zero axis lengths exceeds `isize::MAX`.
    #[verifier::external_body]
    fn filled_with(width: usize, height: usize, value: bool) -> (r: Screen)
        requires
            width <= isize::MAX,
            height <= isize::MAX,
            width * height <= isize::MAX,
        ensures
            screen_cells(r) == filled(width as int, height as int, value),
    {
        Screen { cells: Array2::from_elem((width, height), value) }
    }

    /// Relies on ndarray's `ArrayBase::get`: the cell at `(x, y)`, or `None`
    /// when that index is out of bounds.
    #[verifier::external_body]
    fn cell(&self, x: usize, y: usize) -> (r: Option<bool>)
        ensures
            r == (if screen_cells(*self).contains_key((x as int, y as int)) {
                Some(screen_cells(*self)[(x as int, y as int)])
            } else {
                None
            }),
    {
        self.cells.get((x, y)).copied()
    }

    /// Relies on ndarray's `ArrayBase::get_mut`: writes `value` to the cell
    /// at `(x, y)` and returns `true`, or returns `false` and changes nothing
    /// when that index is out of bounds.
    #[verifier::external_body]
    fn write_cell(&mut self, x: usize, y: usize, value: bool) -> (r: bool)
        ensures
            r == screen_cells(*old(self)).contains_key((x as int, y as int)),
            r ==> screen_cells(*final(self)) == screen_cells(*old(self)).insert(
                (x as int, y as int),
                value,
            ),
            !r ==> *final(self) == *old(self),
    {
        match self.cells.get_mut((x, y)) {
            Some(cell) => {
                *cell = value;
                true
            },
            None => false,
        }
    }

    /// Turns the pixel at column `x` and row `y` on or off. Returns `false`,
    /// leaving the screen as it was, when `(x, y)` is off the screen.
    pub fn set_pixel(&mut self, x: usize, y: usize, value: bool) -> (r: bool)
        ensures
            r == screen_cells(*old(self)).contains_key((x as int, y as int)),
            r ==> screen_cells(*final(self)) == screen_cells(*old(self)).insert(
                (x as int, y as int),
                value,
            ),
            !r ==> *final(self) == *old(self),
    {
        self.write_cell(x, y, value)
    }

    /// The pixel at column `x` and row `y`, or `None` off the screen.
    pub fn pixel(&self, x: usize, y: usize) -> (r: Option<bool>)
        ensures
            r == (if screen_cells(*self).contains_key((x as int, y as int)) {
                Some(screen_cells(*self)[(x as int, y as int)])
            } else {
                None
            }),
    {
        self.cell(x, y)
    }
}

/// Why a game could not be loaded.
#[derive(Debug, Clone, Copy, PartialEq, Eq, Structural)]
pub enum LoadError {
    /// The game does not fit between `GAME_MEM_START` and the end of memory.
    MemoryOverflow,
}

/// The memory of a freshly built machine: zero everywhere but the font,
/// which sits at `font::START`.
pub open spec fn initial_memory() -> Seq<u8> {
    Seq::new(
        MEMORY_SIZE as nat,
        |k: int|
            if font::START <= k < font::START + font::LEN {
                font::glyphs()[k - font::START]
            } else {
                0u8
            },
    )
}

/// Whether a game of `game_len` bytes fits in a memory of `mem_len` bytes
/// when placed at `GAME_MEM_START`.
pub open spec fn game_fits(game_len: nat, mem_len: nat) -> bool {
    GAME_MEM_START + game_len <= mem_len
}

/// `mem` with `game` written over it from `GAME_MEM_START` on.
pub open spec fn with_game(mem: Seq<u8>, game: Seq<u8>) -> Seq<u8> {
    Seq::new(
        mem.len(),
        |k: int|
            if GAME_MEM_START <= k < GAME_MEM_START + game.len() {
                game[k - GAME_MEM_START]
            } else {
                mem[k]
            },
    )
}

/// The CHIP-8 machine emulator. Contains memory, display etc.
pub struct Machine {
    /// Writeable memory - 4096 bytes, addresses `0x000` to `0xFFF`.
    /// A CHIP-8 game is loaded from `GAME_MEM_START`.
    pub memory: Vec<u8>,
    /// A 64x32 pixel display - each pixel is either on or off.
    pub display: Screen,
    /// Stack of return addresses.
    pub stack: Vec<u16>,
    /// Decrements 60 times a second until it reaches zero. The program runs
    /// as normal while it is above zero; it is up to the program to wait.
    pub delay_timer: u8,
    /// Decrements 60 times a second until it reaches zero; while it is above
    /// zero the machine should beep (see `should_beep`).
    pub sound_timer: u8,
}

impl Machine {
    /// The shape every machine keeps: 4096 bytes of memory and a 64x32
    /// display.
    pub open spec fn wf(&self) -> bool {
        &&& self.memory@.len() == MEMORY_SIZE
        &&& screen_cells(self.display).dom() == filled(
            DISPLAY_WIDTH as int,
            DISPLAY_HEIGHT as int,
            false,
        ).dom()
    }

    /// Whether this is the state of a freshly built machine.
    pub open spec fn is_initial(&self) -> bool {
        &&& self.memory@ == initial_memory()
        &&& screen_cells(self.display) == filled(DISPLAY_WIDTH as int, DISPLAY_HEIGHT as int, false)
        &&& self.stack@ == Seq::<u16>::empty()
        &&& self.delay_timer == 0
        &&& self.sound_timer == 0
    }
}

impl Default for Machine {
    fn default() -> (r: Self)
        ensures
            r.is_initial(),
            r.wf(),
            r.memory@.len() == MEMORY_SIZE,
            forall|i: int|
                0 <= i < font::LEN ==> r.memory@[font::START + i] == #[trigger] font::VALUES[i],
            forall|p: (int, int)|
                #[trigger] screen_cells(r.display).contains_key(p) ==> !screen_cells(
                    r.display,
                )[p],
            r.delay_timer == 0,
            r.sound_timer == 0,
    {
        let mut memory: Vec<u8> = vec![0u8; MEMORY_SIZE];
        // the font must end before the game area begins
        assert(font::START + font::LEN <= GAME_MEM_START);
        let mut i: usize = 0;
        while i < font::LEN
            invariant
                i <= font::LEN,
                memory@.len() == MEMORY_SIZE,
                forall|k: int|
                    0 <= k < MEMORY_SIZE ==> #[trigger] memory@[k] == (if font::START <= k
                        < font::START + i {
                        font::glyphs()[k - font::START]
                    } else {
                        0u8
                    }),
            decreases font::LEN - i,
        {
            memory.set(font::START + i, font::VALUES[i]);
            i += 1;
        }
        assert(memory@ =~= initial_memory());
        let r = Machine {
            memory,
            display: Screen::filled_with(DISPLAY_WIDTH, DISPLAY_HEIGHT, false),
            stack: Vec::with_capacity(STACK_CAPACITY),
            delay_timer: 0,
            sound_timer: 0,
        };
        r
    }
}

impl Machine {
    /// Copies `game` into memory from `GAME_MEM_START` on and returns the
    /// machine, so that the call can be chained. A game that does not fit
    /// before the end of memory is refused and memory is left as it was.
    pub fn load_game(&mut self, game: Vec<u8>) -> (r: Result<&mut Machine, LoadError>)
        ensures
            game_fits(game@.len(), old(self).memory@.len()) <==> r is Ok,
            match r {
                Ok(m) => {
                    &&& m.memory@ == with_game(old(self).memory@, game@)
                    &&& m.display == old(self).display
                    &&& m.stack@ == old(self).stack@
                    &&& m.delay_timer == old(self).delay_timer
                    &&& m.sound_timer == old(self).sound_timer
                    &&& *final(self) == *final(m)
                },
                Err(e) => {
                    &&& e == LoadError::MemoryOverflow
                    &&& *final(self) == *old(self)
                },
            },
    {
        let len = self.memory.len();
        if len < GAME_MEM_START || len - GAME_MEM_START < game.len() {
            return Err(LoadError::MemoryOverflow);
        }
        let ghost mem0 = self.memory@;
        let mut j: usize = 0;
        while j < game.len()
            invariant
                GAME_MEM_START + game@.len() <= len,
                len == mem0.len(),
                j <= game@.len(),
                self.memory@.len() == len,
                self.display == old(self).display,
                self.stack@ == old(self).stack@,
                self.delay_timer == old(self).delay_timer,
                self.sound_timer == old(self).sound_timer,
                forall|k: int|
                    0 <= k < len ==> #[trigger] self.memory@[k] == (if GAME_MEM_START <= k
                        < GAME_MEM_START + j {
                        game@[k - GAME_MEM_START]
                    } else {
                        mem0[k]
                    }),
            decreases game@.len() - j,
        {
            self.memory.set(GAME_MEM_START + j, game[j]);
            j += 1;
        }
        assert(self.memory@ =~= with_game(mem0, game@));
        Ok(self)
    }

    /// Whether the emulator should beep: the sound timer is above zero.
    pub fn should_beep(&self) -> (r: bool)
        ensures
            r == (self.sound_timer > 0),
    {
        self.sound_timer > 0
    }
}

/// Loading an empty game into a freshly built machine succeeds and leaves
/// its memory as construction made it.
pub proof fn lemma_empty_game_keeps_memory(m: Machine)
    requires
        m.is_initial(),
    ensures
        game_fits(0, m.memory@.len()),
        with_game(m.memory@, Seq::<u8>::empty()) == m.memory@,
{
    assert(with_game(m.memory@, Seq::<u8>::empty()) =~= m.memory@);
}

/// A game longer than the memory from `GAME_MEM_START` to the end, that is
/// more than 3584 bytes, never fits a machine of the usual shape, so loading
/// it yields `MemoryOverflow` and leaves the machine unchanged.
pub proof fn lemma_oversized_game_refused(m: Machine, game: Seq<u8>)
    requires
        m.wf(),
        game.len() > MEMORY_SIZE - GAME_MEM_START,
    ensures
        !game_fits(game.len(), m.memory@.len()),
{
}

} // verus!
