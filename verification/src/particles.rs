//! Background animation: its modes, and how many particles a frame adds.

use vstd::prelude::*;

verus! {

/// Frames between two spawns of ash.
pub const ASH_SPAWN_INTERVAL: u64 = 8;

/// Frames between two spawns of dust.
pub const DUST_SPAWN_INTERVAL: u64 = 10;

/// Frames between two spawns of embers.
pub const EMBER_SPAWN_INTERVAL: u64 = 15;

/// Particles a system holds at most, by default.
pub const DEFAULT_MAX_PARTICLES: usize = 60;

/// Kinds of background animation.
#[derive(Debug, Clone, Copy, PartialEq, Eq, Structural)]
pub enum ParticleMode {
    /// Ash that floats up slowly.
    FloatingAsh,
    /// Dust that drifts.
    Dust,
    /// Embers that rise from the bottom.
    Embers,
    /// No particles.
    Off,
}

impl Default for ParticleMode {
    fn default() -> (mode: ParticleMode)
        ensures
            mode == ParticleMode::FloatingAsh,
    {
        ParticleMode::FloatingAsh
    }
}

impl ParticleMode {
    pub open spec fn spec_next(self) -> ParticleMode {
        match self {
            ParticleMode::FloatingAsh => ParticleMode::Dust,
            ParticleMode::Dust => ParticleMode::Embers,
            ParticleMode::Embers => ParticleMode::Off,
            ParticleMode::Off => ParticleMode::FloatingAsh,
        }
    }

    pub open spec fn spec_name(self) -> &'static str {
        match self {
            ParticleMode::FloatingAsh => "Floating Ash",
            ParticleMode::Dust => "Dust",
            ParticleMode::Embers => "Embers",
            ParticleMode::Off => "None",
        }
    }

    /// Particles to add in frame `frame_count`, with `live` particles alive
    /// out of at most `max_particles`. Ash comes one or two at a time, as
    /// `roll` says (anything but 2 counts as 1), and never more than there
    /// is room for; dust fills half the room and embers a third, one at a time.
    pub open spec fn spec_spawn_count(
        self,
        frame_count: u64,
        live: usize,
        max_particles: usize,
        roll: u8,
    ) -> usize {
        match self {
            ParticleMode::FloatingAsh => if frame_count % ASH_SPAWN_INTERVAL == 0 && live
                < max_particles {
                let wanted: usize = if roll == 2 {
                    2
                } else {
                    1
                };
                if wanted <= max_particles - live {
                    wanted
                } else {
                    (max_particles - live) as usize
                }
            } else {
                0
            },
            ParticleMode::Dust => if frame_count % DUST_SPAWN_INTERVAL == 0 && live < max_particles
                / 2 {
                1
            } else {
                0
            },
            ParticleMode::Embers => if frame_count % EMBER_SPAWN_INTERVAL == 0 && live
                < max_particles / 3 {
                1
            } else {
                0
            },
            ParticleMode::Off => 0,
        }
    }

    /// Cycle to the next mode.
    pub fn next(&self) -> (mode: ParticleMode)
        ensures
            mode == self.spec_next(),
    {
        match self {
            ParticleMode::FloatingAsh => ParticleMode::Dust,
            ParticleMode::Dust => ParticleMode::Embers,
            ParticleMode::Embers => ParticleMode::Off,
            ParticleMode::Off => ParticleMode::FloatingAsh,
        }
    }

    /// The name shown for the mode.
    pub fn name(&self) -> (name: &'static str)
        ensures
            name == self.spec_name(),
    {
        match self {
            ParticleMode::FloatingAsh => "Floating Ash",
            ParticleMode::Dust => "Dust",
            ParticleMode::Embers => "Embers",
            ParticleMode::Off => "None",
        }
    }

    /// Particles to add in this frame; `roll` is the throw of a die that
    /// decides between one and two pieces of ash.
    pub fn spawn_count(&self, frame_count: u64, live: usize, max_particles: usize, roll: u8) -> (count:
        usize)
        ensures
            count == self.spec_spawn_count(frame_count, live, max_particles, roll),
            live + count <= max_particles || count == 0,
    {
        match self {
            ParticleMode::FloatingAsh => {
                if frame_count % ASH_SPAWN_INTERVAL == 0 && live < max_particles {
                    let wanted: usize = if roll == 2 {
                        2
                    } else {
                        1
                    };
                    let room: usize = max_particles - live;
                    if wanted <= room {
                        wanted
                    } else {
                        room
                    }
                } else {
                    0
                }
            },
            ParticleMode::Dust => {
                if frame_count % DUST_SPAWN_INTERVAL == 0 && live < max_particles / 2 {
                    1
                } else {
                    0
                }
            },
            ParticleMode::Embers => {
                if frame_count % EMBER_SPAWN_INTERVAL == 0 && live < max_particles / 3 {
                    1
                } else {
                    0
                }
            },
            ParticleMode::Off => 0,
        }
    }
}

/// Going through the modes leads back to the first after four steps.
pub proof fn lemma_modes_cycle(mode: ParticleMode)
    ensures
        mode.spec_next().spec_next().spec_next().spec_next() == mode,
        mode.spec_next() != mode,
{
}

} // verus!
