//! Runs a command string on a rover, skipping moves that would land on an obstacle.
use vstd::prelude::*;

use crate::mars::{Mars, MarsRenderer, MarsView};
use crate::rover::{fits_i32, Position, Rover};

verus! {

/// A consumer of the text the controller emits: grid snapshots and notices.
pub trait Logger {
    fn log(&self, message: String);
}

/// Drives a rover over a grid, one command character at a time.
pub struct Controller {
    initial_rover: Rover,
    mars: Mars,
    renderer: Box<dyn MarsRenderer>,
    logger: Box<dyn Logger>,
}

/// The rover a command asks for, before any obstacle is looked at: `F` forward,
/// `B` backward, `R` right, `L` left; any other character leaves the rover as it is.
pub open spec fn command_outcome(c: char, r: Rover) -> Rover {
    if c == 'F' {
        r.forward()
    } else if c == 'B' {
        r.backward()
    } else if c == 'R' {
        r.turned_right()
    } else if c == 'L' {
        r.turned_left()
    } else {
        r
    }
}

/// The rover a command asks for stays within `i32` coordinates.
pub open spec fn command_fits(c: char, r: Rover) -> bool {
    &&& c == 'F' ==> r.can_move_forward()
    &&& c == 'B' ==> r.can_move_backward()
}

/// One command on a grid: the rover it asks for, unless an obstacle stands there.
pub open spec fn step(obstacles: Set<Position>, r: Rover, c: char) -> Rover {
    let candidate = command_outcome(c, r);
    if obstacles.contains(candidate.position) {
        r
    } else {
        candidate
    }
}

/// The rover after the commands `cs`, in order, starting from `r`.
pub open spec fn run(obstacles: Set<Position>, r: Rover, cs: Seq<char>) -> Rover
    decreases cs.len(),
{
    if cs.len() == 0 {
        r
    } else {
        step(obstacles, run(obstacles, r, cs.drop_last()), cs.last())
    }
}

/// Every command of `cs`, run from `r`, asks for a rover within `i32` coordinates.
pub open spec fn run_fits(obstacles: Set<Position>, r: Rover, cs: Seq<char>) -> bool
    decreases cs.len(),
{
    cs.len() == 0 || (run_fits(obstacles, r, cs.drop_last()) && command_fits(
        cs.last(),
        run(obstacles, r, cs.drop_last()),
    ))
}

/// What can be run from `r` can be run for every prefix of it.
pub proof fn lemma_run_fits_prefix(obstacles: Set<Position>, r: Rover, cs: Seq<char>, n: int)
    requires
        run_fits(obstacles, r, cs),
        0 <= n <= cs.len(),
    ensures
        run_fits(obstacles, r, cs.take(n)),
    decreases cs.len(),
{
    if n < cs.len() {
        assert(cs.drop_last().take(n) =~= cs.take(n));
        lemma_run_fits_prefix(obstacles, r, cs.drop_last(), n);
    } else {
        assert(cs.take(n) =~= cs);
    }
}

/// A rover at least `cs.len()` cells away from every `i32` limit can run all of `cs`, and
/// ends at most `cs.len()` cells away from where it started along each axis.
pub proof fn lemma_run_fits_within_margin(obstacles: Set<Position>, r: Rover, cs: Seq<char>)
    requires
        fits_i32(r.position.x - cs.len()),
        fits_i32(r.position.x + cs.len()),
        fits_i32(r.position.y - cs.len()),
        fits_i32(r.position.y + cs.len()),
    ensures
        run_fits(obstacles, r, cs),
        r.position.x - cs.len() <= run(obstacles, r, cs).position.x <= r.position.x + cs.len(),
        r.position.y - cs.len() <= run(obstacles, r, cs).position.y <= r.position.y + cs.len(),
    decreases cs.len(),
{
    if cs.len() > 0 {
        lemma_run_fits_within_margin(obstacles, r, cs.drop_last());
    }
}

impl Controller {
    /// The rover the commands start from.
    pub closed spec fn initial(&self) -> Rover {
        self.initial_rover
    }

    /// The grid the rover drives on.
    pub closed spec fn grid(&self) -> MarsView {
        self.mars@
    }

    pub fn new(
        rover: Rover,
        mars: Mars,
        renderer: Box<dyn MarsRenderer>,
        logger: Box<dyn Logger>,
    ) -> (r: Controller)
        ensures
            r.initial() == rover,
            r.grid() == mars@,
    {
        Controller { initial_rover: rover, mars: mars, renderer: renderer, logger: logger }
    }

    /// Runs `commands` from the initial rover and returns the final one.
    ///
    /// A snapshot goes to the logger before the first command and after each one; a
    /// move onto an obstacle is skipped, with a notice to the logger. For a rover at least
    /// as many cells from every `i32` limit as there are commands, the precondition holds by
    /// `lemma_run_fits_within_margin`.
    pub fn execute_commands(&self, commands: String) -> (r: Rover)
        requires
            run_fits(self.grid().obstacles, self.initial(), commands@),
        ensures
            r == run(self.grid().obstacles, self.initial(), commands@),
    {
        let ghost cs = commands@;
        let ghost obstacles = self.grid().obstacles;
        let mut current_rover = self.initial_rover;
        self.logger.log(self.renderer.render(&self.mars, &current_rover));
        for command in it: commands.as_str().chars()
            invariant
                it.seq() == cs,
                obstacles == self.grid().obstacles,
                run_fits(obstacles, self.initial(), cs),
                current_rover == run(obstacles, self.initial(), cs.take(it.index() as int)),
        {
            let ghost i = it.index() as int;
            proof {
                lemma_run_fits_prefix(obstacles, self.initial(), cs, i + 1);
                assert(cs.take(i + 1).drop_last() =~= cs.take(i));
            }
            current_rover = self.try_and_execute_command(command, current_rover);
            self.logger.log(self.renderer.render(&self.mars, &current_rover));
        }
        proof {
            assert(cs.take(cs.len() as int) =~= cs);
        }
        current_rover
    }

    /// One command on the grid: the rover it asks for, or `rover` itself where an obstacle
    /// stands on the rover it asks for.
    pub fn try_and_execute_command(&self, command: char, rover: Rover) -> (r: Rover)
        requires
            command_fits(command, rover),
        ensures
            r == step(self.grid().obstacles, rover, command),
    {
        let new_rover = self.execute_command(command, rover);
        if self.mars.has_obstacle(new_rover.position) {
            self.logger.log(String::from_str("/!\\ Invalid move requested, skipping"));
            rover
        } else {
            new_rover
        }
    }

    /// The rover that `command` asks for, with no obstacle check.
    pub fn execute_command(&self, command: char, rover: Rover) -> (r: Rover)
        requires
            command_fits(command, rover),
        ensures
            r == command_outcome(command, rover),
    {
        match command {
            'F' => rover.move_forward(),
            'B' => rover.move_backward(),
            'R' => rover.turn_right(),
            'L' => rover.turn_left(),
            _ => rover,
        }
    }
}

} // verus!
