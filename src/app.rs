//! The state of the interactive shell around a world: run/pause/quit, the
//! generation shown to the user, the panning offsets of the rendered
//! window, and how a key press changes them.
use crate::world::{Cell, World, WorldError, WorldView};
use vstd::prelude::*;

verus! {

/// Whether the simulation is running, paused, or finished.
#[derive(Debug, Clone, Copy, PartialEq, Eq, Structural)]
pub enum AppState {
    Run,
    Pause,
    Quit,
}

/// A key, as far as the shell tells keys apart.
#[derive(Debug, Clone, Copy, PartialEq, Eq, Structural)]
pub enum Key {
    Esc,
    Char(char),
    Left,
    Right,
    Up,
    Down,
    Other,
}

/// A key press: the key, and whether Control was the only modifier held.
#[derive(Debug, Clone, Copy, PartialEq, Eq, Structural)]
pub struct KeyPress {
    pub code: Key,
    pub control_only: bool,
}

/// What the caller still has to do after a key press was handled.
#[derive(Debug, Clone, Copy, PartialEq, Eq, Structural)]
pub enum KeyAction {
    /// Nothing more.
    Done,
    /// Sample fresh cells of the same size and hand them to `App::reset`.
    Reseed,
}

/// The abstract state of the shell.
pub ghost struct AppView {
    pub gen: nat,
    pub state: AppState,
    pub nx: nat,
    pub ny: nat,
    pub world: WorldView,
    pub rendering_ix: nat,
    pub rendering_iy: nat,
}

/// Where a panning offset `current` moves when shifted by `shift`: never
/// below zero, never above `usize::MAX`, and, when moving forward, never
/// past `upper_limit`.
pub open spec fn panned_index(current: int, shift: int, upper_limit: int) -> int {
    if shift < 0 {
        if current + shift < 0 {
            0
        } else {
            current + shift
        }
    } else {
        let moved = if current + shift > usize::MAX {
            usize::MAX as int
        } else {
            current + shift
        };
        if moved < upper_limit {
            moved
        } else {
            upper_limit
        }
    }
}

/// The state after run/pause is toggled.
pub open spec fn toggled(state: AppState) -> AppState {
    match state {
        AppState::Pause => AppState::Run,
        AppState::Run => AppState::Pause,
        AppState::Quit => AppState::Quit,
    }
}

/// The shell after a key press, and what is left for the caller to do.
/// Esc and `q` quit, as does `c` or `C` with Control alone; `s` toggles
/// run/pause; `r` asks for a reseed while paused; the arrow keys move the
/// panning offset by one (saturating); every other key does nothing.
pub open spec fn key_effect(key: KeyPress, a: AppView) -> (AppView, KeyAction) {
    match key.code {
        Key::Esc => (AppView { state: AppState::Quit, ..a }, KeyAction::Done),
        Key::Char(c) => {
            if c == 'q' || ((c == 'c' || c == 'C') && key.control_only) {
                (AppView { state: AppState::Quit, ..a }, KeyAction::Done)
            } else if c == 's' {
                (AppView { state: toggled(a.state), ..a }, KeyAction::Done)
            } else if c == 'r' && a.state == AppState::Pause {
                (a, KeyAction::Reseed)
            } else {
                (a, KeyAction::Done)
            }
        },
        Key::Left => (AppView { rendering_ix: saturating_dec(a.rendering_ix), ..a }, KeyAction::Done),
        Key::Right => (
            AppView { rendering_ix: saturating_inc(a.rendering_ix), ..a },
            KeyAction::Done,
        ),
        Key::Up => (AppView { rendering_iy: saturating_dec(a.rendering_iy), ..a }, KeyAction::Done),
        Key::Down => (
            AppView { rendering_iy: saturating_inc(a.rendering_iy), ..a },
            KeyAction::Done,
        ),
        Key::Other => (a, KeyAction::Done),
    }
}

/// `a + 1`, saturating at `usize::MAX`.
pub open spec fn saturating_inc(a: nat) -> nat {
    if a < usize::MAX {
        a + 1
    } else {
        a
    }
}

/// `a - 1`, saturating at zero.
pub open spec fn saturating_dec(a: nat) -> nat {
    if a > 0 {
        (a - 1) as nat
    } else {
        0
    }
}

/// The end of the window `[start, start + len)` clipped to `[0, extent)`.
pub open spec fn window_end(start: int, len: int, extent: int) -> int {
    let end = if start + len > usize::MAX {
        usize::MAX as int
    } else {
        start + len
    };
    if end < extent {
        end
    } else {
        extent
    }
}

/// The shell's state around one world.
#[derive(Debug)]
pub struct App {
    gen: u64,
    state: AppState,
    nx: usize,
    ny: usize,
    world: World,
    rendering_ix: usize,
    rendering_iy: usize,
}

impl View for App {
    type V = AppView;

    closed spec fn view(&self) -> AppView {
        AppView {
            gen: self.gen as nat,
            state: self.state,
            nx: self.nx as nat,
            ny: self.ny as nat,
            world: self.world@,
            rendering_ix: self.rendering_ix as nat,
            rendering_iy: self.rendering_iy as nat,
        }
    }
}

impl App {
    /// The world is well formed and has the shell's dimensions.
    pub closed spec fn wf(&self) -> bool {
        &&& self.world.wf()
        &&& self.nx > 0
        &&& self.ny > 0
        &&& self.world@.nx == self.nx
        &&& self.world@.ny == self.ny
    }

    /// A paused shell at generation zero, with no panning, over a new world
    /// built from `cells`; fails as `World::new` does.
    pub fn new(nx: usize, ny: usize, cells: &[Cell]) -> (r: Result<App, WorldError>)
        requires
            cells@.len() <= isize::MAX,
        ensures
            r is Ok <==> (nx > 0 && ny > 0 && cells@.len() == nx * ny),
            r matches Err(e) ==> e == WorldError::InvalidSize,
            r matches Ok(a) ==> a.wf() && a@ == (AppView {
                gen: 0,
                state: AppState::Pause,
                nx: nx as nat,
                ny: ny as nat,
                world: WorldView::initial(nx as nat, ny as nat, cells@),
                rendering_ix: 0,
                rendering_iy: 0,
            }),
    {
        let world = World::new(nx, ny, cells)?;
        Ok(App { gen: 0, state: AppState::Pause, nx, ny, world, rendering_ix: 0, rendering_iy: 0 })
    }

    /// A reset is allowed only while paused.
    pub fn can_reset(&self) -> (r: bool)
        ensures
            r == (self@.state == AppState::Pause),
    {
        self.state == AppState::Pause
    }

    /// One tick of the clock: while running, the world advances one
    /// generation and the shown generation grows by one (saturating);
    /// otherwise nothing changes.
    pub fn tick(&mut self)
        requires
            old(self).wf(),
        ensures
            final(self).wf(),
            old(self)@.state == AppState::Run ==> final(self)@ == (AppView {
                gen: if old(self)@.gen < u64::MAX {
                    old(self)@.gen + 1
                } else {
                    old(self)@.gen
                },
                world: old(self)@.world.next(),
                ..old(self)@
            }),
            old(self)@.state != AppState::Run ==> final(self)@ == old(self)@,
    {
        if self.state == AppState::Run {
            self.gen = self.gen.saturating_add(1);
            self.world.next();
        }
    }

    /// Switches between running and paused; a finished shell stays finished.
    pub fn toggle(&mut self)
        requires
            old(self).wf(),
        ensures
            final(self).wf(),
            final(self)@ == (AppView { state: toggled(old(self)@.state), ..old(self)@ }),
    {
        match self.state {
            AppState::Pause => self.state = AppState::Run,
            AppState::Run => self.state = AppState::Pause,
            AppState::Quit => (),
        }
    }

    /// While paused, replaces the world by a new one of the same size built
    /// from `cells`, and sets the generation and the panning back to zero.
    /// Fails with `InvalidSize`, changing nothing, when `cells` does not
    /// hold `nx * ny` entries. When not paused, nothing changes.
    pub fn reset(&mut self, cells: &[Cell]) -> (r: Result<(), WorldError>)
        requires
            old(self).wf(),
            cells@.len() <= isize::MAX,
        ensures
            final(self).wf(),
            r is Err <==> (old(self)@.state == AppState::Pause && cells@.len() != old(self)@.nx
                * old(self)@.ny),
            r matches Err(e) ==> e == WorldError::InvalidSize,
            r is Err || old(self)@.state != AppState::Pause ==> final(self)@ == old(self)@,
            r is Ok && old(self)@.state == AppState::Pause ==> final(self)@ == (AppView {
                gen: 0,
                world: WorldView::initial(old(self)@.nx, old(self)@.ny, cells@),
                rendering_ix: 0,
                rendering_iy: 0,
                ..old(self)@
            }),
    {
        if self.can_reset() {
            let world = World::new(self.nx, self.ny, cells)?;
            self.world = world;
            self.gen = 0;
            self.rendering_ix = 0;
            self.rendering_iy = 0;
        }
        Ok(())
    }

    /// Pans the rendered window along the x-axis, clamped to `[0, nx]`.
    pub fn pan_x(&mut self, shift: isize)
        requires
            old(self).wf(),
        ensures
            final(self).wf(),
            final(self)@ == (AppView {
                rendering_ix: panned_index(
                    old(self)@.rendering_ix as int,
                    shift as int,
                    old(self)@.nx as int,
                ) as nat,
                ..old(self)@
            }),
    {
        self.rendering_ix = Self::calculate_panned_index(self.rendering_ix, shift, self.nx);
    }

    /// Pans the rendered window along the y-axis, clamped to `[0, ny]`.
    pub fn pan_y(&mut self, shift: isize)
        requires
            old(self).wf(),
        ensures
            final(self).wf(),
            final(self)@ == (AppView {
                rendering_iy: panned_index(
                    old(self)@.rendering_iy as int,
                    shift as int,
                    old(self)@.ny as int,
                ) as nat,
                ..old(self)@
            }),
    {
        self.rendering_iy = Self::calculate_panned_index(self.rendering_iy, shift, self.ny);
    }

    fn calculate_panned_index(current: usize, shift: isize, upper_limit: usize) -> (r: usize)
        ensures
            r == panned_index(current as int, shift as int, upper_limit as int),
    {
        if shift < 0 {
            // -(shift + 1) cannot overflow, unlike -shift.
            let back = (-(shift + 1)) as usize + 1;
            if current >= back {
                current - back
            } else {
                0
            }
        } else {
            let moved = current.saturating_add(shift as usize);
            if moved < upper_limit {
                moved
            } else {
                upper_limit
            }
        }
    }

    /// Marks the shell as finished.
    pub fn quit(&mut self)
        requires
            old(self).wf(),
        ensures
            final(self).wf(),
            final(self)@ == (AppView { state: AppState::Quit, ..old(self)@ }),
    {
        self.state = AppState::Quit;
    }

    /// The cells inside the rendered window of at most `width` by `height`
    /// cells whose top-left corner is the panning offset, clipped to the
    /// grid: one inner vector per row, from top to bottom.
    pub fn visible_cells(&self, width: usize, height: usize) -> (r: Vec<Vec<Cell>>)
        requires
            self.wf(),
        ensures
            r@.len() == (if self@.rendering_iy < window_end(
                self@.rendering_iy as int,
                height as int,
                self@.ny as int,
            ) {
                window_end(self@.rendering_iy as int, height as int, self@.ny as int)
                    - self@.rendering_iy
            } else {
                0
            }),
            forall|row: int|
                0 <= row < r@.len() ==> (#[trigger] r@[row])@.len() == (if self@.rendering_ix
                    < window_end(self@.rendering_ix as int, width as int, self@.nx as int) {
                    window_end(self@.rendering_ix as int, width as int, self@.nx as int)
                        - self@.rendering_ix
                } else {
                    0
                }),
            forall|row: int, col: int|
                0 <= row < r@.len() && 0 <= col < r@[row]@.len() ==> #[trigger] r@[row]@[col]
                    == self@.world.cell(
                    self@.rendering_ix + col,
                    self@.rendering_iy + row,
                ),
    {
        let x_end = window_end_exec(self.rendering_ix, width, self.nx);
        let y_end = window_end_exec(self.rendering_iy, height, self.ny);
        let mut rows: Vec<Vec<Cell>> = Vec::new();
        let mut iy = self.rendering_iy;
        while iy < y_end
            invariant
                self.wf(),
                y_end == window_end(self@.rendering_iy as int, height as int, self@.ny as int),
                x_end == window_end(self@.rendering_ix as int, width as int, self@.nx as int),
                self.rendering_iy <= iy,
                self.rendering_iy < y_end ==> iy <= y_end,
                self.rendering_iy >= y_end ==> iy == self.rendering_iy,
                rows@.len() == iy - self.rendering_iy,
                forall|row: int|
                    0 <= row < rows@.len() ==> (#[trigger] rows@[row])@.len() == (
                    if self@.rendering_ix < x_end {
                        x_end - self@.rendering_ix
                    } else {
                        0
                    }),
                forall|row: int, col: int|
                    0 <= row < rows@.len() && 0 <= col < rows@[row]@.len()
                        ==> #[trigger] rows@[row]@[col] == self@.world.cell(
                        self@.rendering_ix + col,
                        self@.rendering_iy + row,
                    ),
            decreases y_end - iy,
        {
            let mut row: Vec<Cell> = Vec::new();
            let mut ix = self.rendering_ix;
            while ix < x_end
                invariant
                    self.wf(),
                    x_end == window_end(self@.rendering_ix as int, width as int, self@.nx as int),
                    iy < y_end,
                    y_end <= self.ny,
                    self.rendering_ix <= ix,
                    self.rendering_ix < x_end ==> ix <= x_end,
                    self.rendering_ix >= x_end ==> ix == self.rendering_ix,
                    row@.len() == ix - self.rendering_ix,
                    forall|col: int|
                        0 <= col < row@.len() ==> #[trigger] row@[col] == self@.world.cell(
                            self@.rendering_ix + col,
                            iy as int,
                        ),
                decreases x_end - ix,
            {
                row.push(self.world.get_present_cell(ix, iy));
                ix = ix + 1;
            }
            rows.push(row);
            iy = iy + 1;
        }
        rows
    }

    /// The generation shown to the user.
    pub fn gen(&self) -> (r: u64)
        ensures
            r == self@.gen,
    {
        self.gen
    }

    /// Whether the shell runs, is paused or has finished.
    pub fn state(&self) -> (r: AppState)
        ensures
            r == self@.state,
    {
        self.state
    }

    /// Width of the world.
    pub fn nx(&self) -> (r: usize)
        ensures
            r == self@.nx,
    {
        self.nx
    }

    /// Height of the world.
    pub fn ny(&self) -> (r: usize)
        ensures
            r == self@.ny,
    {
        self.ny
    }

    /// The world.
    pub fn world(&self) -> (r: &World)
        ensures
            r@ == self@.world,
    {
        &self.world
    }

    /// Panning offset of the rendered window along the x-axis.
    pub fn rendering_ix(&self) -> (r: usize)
        ensures
            r == self@.rendering_ix,
    {
        self.rendering_ix
    }

    /// Panning offset of the rendered window along the y-axis.
    pub fn rendering_iy(&self) -> (r: usize)
        ensures
            r == self@.rendering_iy,
    {
        self.rendering_iy
    }
}

/// Applies a key press to the shell. A reset needs freshly sampled cells,
/// so for `r` the shell is left as it is and `KeyAction::Reseed` asks the
/// caller to pass such cells to `App::reset`.
pub fn handle_key_events(key_event: KeyPress, app: &mut App) -> (r: KeyAction)
    requires
        old(app).wf(),
    ensures
        final(app).wf(),
        (final(app)@, r) == key_effect(key_event, old(app)@),
{
    match key_event.code {
        Key::Esc => {
            app.quit();
        },
        Key::Char(c) => {
            if c == 'q' || ((c == 'c' || c == 'C') && key_event.control_only) {
                app.quit();
            } else if c == 's' {
                app.toggle();
            } else if c == 'r' && app.can_reset() {
                return KeyAction::Reseed;
            }
        },
        Key::Left => {
            app.rendering_ix = app.rendering_ix.saturating_sub(1);
        },
        Key::Right => {
            app.rendering_ix = app.rendering_ix.saturating_add(1);
        },
        Key::Up => {
            app.rendering_iy = app.rendering_iy.saturating_sub(1);
        },
        Key::Down => {
            app.rendering_iy = app.rendering_iy.saturating_add(1);
        },
        Key::Other => {},
    }
    KeyAction::Done
}

fn window_end_exec(start: usize, len: usize, extent: usize) -> (r: usize)
    ensures
        r == window_end(start as int, len as int, extent as int),
{
    let end = start.saturating_add(len);
    if end < extent {
        end
    } else {
        extent
    }
}

} // verus!
