# weird_wizard

Character-building rules for the Shadow of the Weird Wizard tabletop game, verified with Verus.

- `src/mod_dsl`: the modifier language that talents, spells and choices carry — a lexer, a
  recursive-descent parser, and the syntax tree. Every function is proved against a
  specification that reads the token sequence step by step the way the grammar is walked;
  laws on top of it state what holds of every parsed text (one timing for all its modifiers,
  taken from its leading marker; operator texts that lex back to the same operator).
  `parse_mods_checked` tells apart the texts on which parsing stops without a result.
- `src/db/character_choices.rs`: how the selections that GRANT, LOSE and OVERRIDE modifiers make
  accumulate into a tree, how the losses anywhere in the tree are gathered, and how the tree is
  collapsed into a flat one, keeping every talent that survives at any depth and pruning the
  lost ones.
- `src/db/choice_tree.rs`: one step of resolving a character's modifier tree — what a single
  GRANT, LOSE, OVERRIDE or CHOOSE adds, given the choice saved for it and the choices already
  resolved, and what must be looked up next. The application runs the walk.
- `src/db/characters.rs`: the statistics and choices that an ancestry and the path levels a
  character has reached give, and how health and damage bound each other.
- `src/import.rs`: the rows of an import and the rules that read their cells, and the order and
  progress of writing them.
- `src/text.rs`, `src/util.rs`: text helpers (decimal numbers, splitting, trimming, case).
- `app/`: the desktop application around the library — database queries, reading import
  archives, and the commands of the user interface.
