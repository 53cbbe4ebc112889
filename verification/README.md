# defend

The rules of Defend, a retro vertical space shooter, as a Verus-verified
library, with the browser front end around it.

* `src/` — the verified library. `GameCore` holds the discrete state of a
  session (score, shields, wave, status, tick counter, power-up type, drone
  and beam timers, boss health). Each phase of a game tick is a method whose
  contract states exactly how it changes that state and which entities leave
  the board; the entities themselves are generic, so the library moves them
  without looking inside. `laws.rs` proves the properties that span phases:
  the state invariant, that a lost game stays lost, that the game is lost
  exactly when a shield is depleted, that score and wave never go down, and
  more.
* `app/` — the Yew components and the continuous side of the board:
  positions, velocities, the charge gauge and random draws are
  floating-point, so they are computed there and handed to the library as
  plain facts (which threat touches the player, which laser hits the boss).
* `tests/` — tests of the library on concrete values.
