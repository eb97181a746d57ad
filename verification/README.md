# azure_ost_cli

A command-line front end for exporting and comparing the background music of
FFXIV. The library in `src/` holds the decisions the program takes, each with
a contract proved by Verus:

- `numeric`: reading an unsigned decimal number. Its contract is a short
  statement of what `usize::from_str` accepts (an optional `+`, then at least
  one ASCII digit and nothing else, with values above `usize::MAX` refused);
  the code is proved against that statement, and the tests compare it with
  `usize::from_str` itself on sample inputs;
- `text`: character-wise text comparison;
- `args`: which argument fails and how it is reported, the thread count, the
  file selector (name before index), the export mode (MP3 before OGG), the
  subcommand, and the lines and exit statuses with which the program stops;
- `progress`: what the front end prints for each phase of a run and what it
  does with its progress bar for each progress report, with laws over whole
  series of reports.

`app/` is the program: it reads the command line with clap, performs the
terminal output with indicatif and calls the export engine.
