# Space Boss Battles

A 2D arcade space shooter: the player fights an enemy boss through four
levels on three difficulty settings.

The game's rules are a library verified with Verus (`src/`):

- `utils`: timers, the fps counter, the logic update timer and the game time
  that stops while the game is paused.
- `input`: key states and key hits, with held arrow keys repeating.
- `window`: keyboard keys, game controller buttons and sticks, window events,
  default game controller mappings.
- `settings` and `text`: the settings, their file format (saving and then
  loading gives the same settings back) and the command line arguments.
- `audio`: which sound effects play and at which volume.
- `gui`: GUI states and events, button groups and menus.
- `logic`: health, difficulty, the enemy's weapons, shield and laser cannons,
  explosions, level ends, and removing game objects from their containers.
- `game`: the game's reactions to GUI events.
- `gl`: OpenGL error codes and shader types.
- `texture`: decoding the PNG files of the textures into RGB or RGBA images.

The program around it (`app/`) reads the command line and the settings file,
opens the SDL2 window, reads the texture files, plays the audio, draws the game and moves the game
objects in floating point world coordinates.
