# banqi-tauri

Desktop front end of the banqi (dark chess) game. The commands that the
window calls are split in two:

- `src/` is the verified library (Verus). It holds the session state machine
  behind the commands (`session.rs`: opponent choice, search settings, which
  models and policies are live, whether a search tree is kept, and the
  decisions of a new game, a computer move and a browsing search), the text
  the board view shows (`board.rs`, `state.rs`), the model catalogue and the
  choice of model loader (`models.rs`), the order of search-tree edges and the
  move a node is shown with (`mcts.rs`), and small text helpers (`text.rs`).
- `app/` is the Tauri program around it: the command handlers, the game
  engine and inference calls, file-system access, threads, and the
  floating-point search statistics.

`tests/` exercises the library on concrete values.
