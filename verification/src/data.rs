//! The personality data set baked into the crate.

use vstd::prelude::*;
use vstd::string::StringExecFns;

verus! {

const EMBEDDED_JSON_1: &'static str = r#"[
 {
  "name": "ada",
  "programmer": "Ada Lovelace",
  "description": "Analytical engine visionary and first programmer.",
  "philosophy": "Poetry and precision belong together.",
  "tools": [
   "editor",
   "repl"
  ],
  "tags": [
   "pioneer",
   "mathematics"
  ],
  "environment": {
   "EDITOR": "ed",
   "PAGER": "more"
  }
 },
 {
  "name": "grace",
  "programmer": "Grace Hopper",
  "description": "Compiler inventor who taught machines plain words.",
  "philosophy": "A ship in port is safe, but that is not what ships are built for.",
  "tools": [
   "compiler",
   "debugger"
  ],
  "tags": [
   "pioneer",
   "compilers"
  ]
 },
 {
  "name": "alan",
  "programmer": "Alan Turing",
  "description": "Theorist of computation and code breaking.",
  "philosophy": "We can only see a short distance ahead.",
  "tools": [
   "profiler"
  ],
  "tags": [
   "pioneer",
   "theory"
  ]
 },
 {
  "name": "linus",
  "programmer": "Linus Torvalds",
  "description": "Kernel builder with a famously blunt tongue.",
  "philosophy": "Talk is cheap, show me the code.",
  "tools": [
   "shell",
   "pipes"
  ],
  "tags": [
   "kernel",
   "systems"
  ]
 },
 {
  "name": "hanzo",
  "programmer": "Hanzo",
  "description": "House persona of the toolsmith collective.",
  "tools": [
   "linter",
   "formatter"
  ],
  "tags": [
   "house",
   "tooling"
  ]
 },
 {
  "name": "dennis",
  "programmer": "Dennis Ritchie",
  "description": "Language designer of the portable systems age.",
  "tools": [
   "tracer"
  ],
  "tags": [
   "systems",
   "languages"
  ]
 },
 {
  "name": "ken",
  "programmer": "Ken Thompson",
  "description": "Unix originator and master of small tools.",
  "philosophy": "When in doubt, use brute force.",
  "tools": [
   "assembler"
  ],
  "tags": [
   "systems",
   "unix"
  ]
 },
 {
  "name": "bjarne",
  "programmer": "Bjarne Stroustrup",
  "description": "Designer of a language with zero-cost ambitions.",
  "tools": [
   "notebook"
  ],
  "tags": [
   "languages"
  ]
 },
 {
  "name": "guido",
  "programmer": "Guido van Rossum",
  "description": "Readable-language designer and gentle dictator.",
  "philosophy": "Readability counts.",
  "tools": [
   "terminal",
   "multiplexer"
  ],
  "tags": [
   "languages",
   "scripting"
  ]
 },
 {
  "name": "matz",
  "programmer": "Yukihiro Matsumoto",
  "description": "Language designer optimizing for joy.",
  "philosophy": "Ruby is designed to make programmers happy.",
  "tools": [
   "scheduler"
  ],
  "tags": [
   "languages",
   "scripting"
  ],
  "environment": {
   "EDITOR": "ed",
   "PAGER": "more"
  }
 },
 {
  "name": "brendan",
  "programmer": "Brendan Eich",
  "description": "Built a language in ten days that ate the web.",
  "tools": [
   "editor",
   "repl"
  ],
  "tags": [
   "web",
   "languages"
  ]
 },
 {
  "name": "anders",
  "programmer": "Anders Hejlsberg",
  "description": "Serial language architect of pragmatic tools.",
  "tools": [
   "compiler",
   "debugger"
  ],
  "tags": [
   "languages",
   "tooling"
  ]
 },
 {
  "name": "larry",
  "programmer": "Larry Wall",
  "description": "Linguist of practical extraction and reporting.",
  "philosophy": "Easy things should be easy and hard things possible.",
  "tools": [
   "profiler"
  ],
  "tags": [
   "scripting"
  ]
 },
 {
  "name": "rasmus",
  "programmer": "Rasmus Lerdorf",
  "description": "Accidental language author of the early web.",
  "tools": [
   "shell",
   "pipes"
  ],
  "tags": [
   "web",
   "scripting"
  ]
 },
 {
  "name": "donald",
  "programmer": "Donald Knuth",
  "description": "Analyst of algorithms and typographic perfectionist.",
  "philosophy": "Premature optimization is the root of all evil.",
  "tools": [
   "linter",
   "formatter"
  ],
  "tags": [
   "theory",
   "books"
  ]
 },
 {
  "name": "edsger",
  "programmer": "Edsger Dijkstra",
  "description": "Structured programming conscience of the field.",
  "philosophy": "Simplicity is prerequisite for reliability.",
  "tools": [
   "tracer"
  ],
  "tags": [
   "theory"
  ]
 },
 {
  "name": "tony",
  "programmer": "Tony Hoare",
  "description": "Inventor of"#;

const EMBEDDED_JSON_2: &'static str = r#" quicksort and verifier of programs.",
  "philosophy": "There are two ways of constructing a software design.",
  "tools": [
   "assembler"
  ],
  "tags": [
   "theory",
   "verification"
  ]
 },
 {
  "name": "barbara",
  "programmer": "Barbara Liskov",
  "description": "Abstraction architect of substitutable types.",
  "tools": [
   "notebook"
  ],
  "tags": [
   "theory",
   "languages"
  ]
 },
 {
  "name": "frances",
  "programmer": "Frances Allen",
  "description": "Optimizing compiler pioneer.",
  "tools": [
   "terminal",
   "multiplexer"
  ],
  "tags": [
   "pioneer",
   "compilers"
  ],
  "environment": {
   "EDITOR": "ed",
   "PAGER": "more"
  }
 },
 {
  "name": "margaret",
  "programmer": "Margaret Hamilton",
  "description": "Onboard flight software lead who named the field.",
  "tools": [
   "scheduler"
  ],
  "tags": [
   "pioneer",
   "aerospace"
  ]
 },
 {
  "name": "katherine",
  "programmer": "Katherine Johnson",
  "description": "Trajectory mathematician of the space race.",
  "tools": [
   "editor",
   "repl"
  ],
  "tags": [
   "pioneer",
   "mathematics"
  ]
 },
 {
  "name": "radia",
  "programmer": "Radia Perlman",
  "description": "Spanning-tree inventor keeping networks loop free.",
  "tools": [
   "compiler",
   "debugger"
  ],
  "tags": [
   "networks"
  ]
 },
 {
  "name": "lynn",
  "programmer": "Lynn Conway",
  "description": "VLSI revolutionary and architecture pioneer.",
  "tools": [
   "profiler"
  ],
  "tags": [
   "pioneer",
   "hardware"
  ]
 },
 {
  "name": "sophie",
  "programmer": "Sophie Wilson",
  "description": "Instruction set designer of a low-power empire.",
  "tools": [
   "shell",
   "pipes"
  ],
  "tags": [
   "hardware"
  ]
 },
 {
  "name": "hedy",
  "programmer": "Hedy Lamarr",
  "description": "Frequency-hopping inventor ahead of her time.",
  "tools": [
   "linter",
   "formatter"
  ],
  "tags": [
   "pioneer",
   "radio"
  ]
 },
 {
  "name": "niklaus",
  "programmer": "Niklaus Wirth",
  "description": "Language designer who kept it simple.",
  "philosophy": "Algorithms plus data structures equals programs.",
  "tools": [
   "tracer"
  ],
  "tags": [
   "languages",
   "books"
  ]
 },
 {
  "name": "alonzo",
  "programmer": "Alonzo Church",
  "description": "Lambda calculus founder.",
  "tools": [
   "assembler"
  ],
  "tags": [
   "theory",
   "mathematics"
  ]
 },
 {
  "name": "haskell",
  "programmer": "Haskell Curry",
  "description": "Combinatory logician with a language named after him.",
  "tools": [
   "notebook"
  ],
  "tags": [
   "theory",
   "functional"
  ],
  "environment": {
   "EDITOR": "ed",
   "PAGER": "more"
  }
 },
 {
  "name": "robin",
  "programmer": "Robin Milner",
  "description": "Type inference and concurrency theorist.",
  "tools": [
   "terminal",
   "multiplexer"
  ],
  "tags": [
   "theory",
   "functional"
  ]
 },
 {
  "name": "simon",
  "programmer": "Simon Peyton Jones",
  "description": "Lazy evaluation evangelist and compiler gardener.",
  "tools": [
   "scheduler"
  ],
  "tags": [
   "functional",
   "compilers"
  ]
 },
 {
  "name": "rob",
  "programmer": "Rob Pike",
  "description": "Concurrency plumber and keeper of simplicity.",
  "philosophy": "Measure, do not tune for speed until you have measured.",
  "tools": [
   "editor",
   "repl"
  ],
  "tags": [
   "systems",
   "languages"
  ]
 },
 {
  "name": "brian",
  "programmer": "Brian Kernighan",
  "description": "Explainer in chief of the Unix school.",
  "tools": [
   "compiler",
   "debugger"
  ],
  "tags": [
   "unix",
   "books"
  ]
 },
 {
  "name": "doug",
  "programmer": "Doug McIlroy",
  "description": "Pipeline philosopher of composable tools.",
  "philosophy": "Write programs that do one thing and do it well.",
  "tools": [
   "profiler"
  ],
  "tags": [
   "unix"
  ]
 },
 {
  "name": "leslie",
  "programmer": "Leslie Lamport",
  "description": "Distributed time keeper and proof stylist.",
  "tools": [
   "shell",
   "pipes"
  ],
  "tags": [
   "verification",
   "distributed"
  ]
 },
 {
  "name": "butler",
  "programmer": "Butler Lampson",
  "description": "System design aphoris"#;

const EMBEDDED_JSON_3: &'static str = r#"t.",
  "tools": [
   "linter",
   "formatter"
  ],
  "tags": [
   "systems"
  ]
 },
 {
  "name": "ivan",
  "programmer": "Ivan Sutherland",
  "description": "Interactive graphics founder.",
  "tools": [
   "tracer"
  ],
  "tags": [
   "graphics",
   "pioneer"
  ]
 },
 {
  "name": "seymour",
  "programmer": "Seymour Cray",
  "description": "Supercomputer craftsman.",
  "tools": [
   "assembler"
  ],
  "tags": [
   "hardware"
  ],
  "environment": {
   "EDITOR": "ed",
   "PAGER": "more"
  }
 },
 {
  "name": "john",
  "programmer": "John Backus",
  "description": "Formula translating system lead.",
  "tools": [
   "notebook"
  ],
  "tags": [
   "pioneer",
   "compilers"
  ]
 },
 {
  "name": "jean",
  "programmer": "Jean Bartik",
  "description": "Original programmer of the first electronic computer.",
  "tools": [
   "terminal",
   "multiplexer"
  ],
  "tags": [
   "pioneer"
  ]
 },
 {
  "name": "betty",
  "programmer": "Betty Holberton",
  "description": "Breakpoint inventor and sort-generator author.",
  "tools": [
   "scheduler"
  ],
  "tags": [
   "pioneer"
  ]
 },
 {
  "name": "kathleen",
  "programmer": "Kathleen Booth",
  "description": "Assembly language originator.",
  "tools": [
   "editor",
   "repl"
  ],
  "tags": [
   "pioneer",
   "hardware"
  ]
 },
 {
  "name": "adele",
  "programmer": "Adele Goldberg",
  "description": "Smalltalk steward of live objects.",
  "tools": [
   "compiler",
   "debugger"
  ],
  "tags": [
   "languages",
   "objects"
  ]
 },
 {
  "name": "alank",
  "programmer": "Alan Kay",
  "description": "Object messaging visionary.",
  "philosophy": "The best way to predict the future is to invent it.",
  "tools": [
   "profiler"
  ],
  "tags": [
   "objects",
   "graphics"
  ]
 },
 {
  "name": "dan",
  "programmer": "Dan Ingalls",
  "description": "Live system implementor of the object age.",
  "tools": [
   "shell",
   "pipes"
  ],
  "tags": [
   "objects"
  ]
 },
 {
  "name": "ward",
  "programmer": "Ward Cunningham",
  "description": "Wiki inventor and pattern gardener.",
  "tools": [
   "linter",
   "formatter"
  ],
  "tags": [
   "web",
   "patterns"
  ]
 },
 {
  "name": "kent",
  "programmer": "Kent Beck",
  "description": "Test-first rhythm keeper.",
  "philosophy": "Make it work, make it right, make it fast.",
  "tools": [
   "tracer"
  ],
  "tags": [
   "testing",
   "patterns"
  ],
  "environment": {
   "EDITOR": "ed",
   "PAGER": "more"
  }
 },
 {
  "name": "martin",
  "programmer": "Martin Fowler",
  "description": "Refactoring cataloguer.",
  "tools": [
   "assembler"
  ],
  "tags": [
   "patterns",
   "books"
  ]
 },
 {
  "name": "erich",
  "programmer": "Erich Gamma",
  "description": "Design patterns gang member and tooling lead.",
  "tools": [
   "notebook"
  ],
  "tags": [
   "patterns",
   "tooling"
  ]
 },
 {
  "name": "bill",
  "programmer": "Bill Joy",
  "description": "Editor author and berkeley system builder.",
  "tools": [
   "terminal",
   "multiplexer"
  ],
  "tags": [
   "unix",
   "tooling"
  ]
 },
 {
  "name": "woz",
  "programmer": "Steve Wozniak",
  "description": "Hardware hacker of elegant minimal designs.",
  "tools": [
   "scheduler"
  ],
  "tags": [
   "hardware"
  ]
 },
 {
  "name": "rms",
  "programmer": "Richard Stallman",
  "description": "Free software founder.",
  "philosophy": "Free as in freedom.",
  "tools": [
   "editor",
   "repl"
  ],
  "tags": [
   "freedom",
   "tooling"
  ]
 },
 {
  "name": "eric",
  "programmer": "Eric Raymond",
  "description": "Bazaar chronicler.",
  "tools": [
   "compiler",
   "debugger"
  ],
  "tags": [
   "freedom",
   "books"
  ]
 },
 {
  "name": "tim",
  "programmer": "Tim Berners-Lee",
  "description": "Web weaver of linked documents.",
  "tools": [
   "profiler"
  ],
  "tags": [
   "web",
   "pioneer"
  ]
 },
 {
  "name": "vint",
  "programmer": "Vint Cerf",
  "description": "Internet protocol co-author.",
  "tools": [
   "shell",
   "pipes"
  ],
  "tags": [
   "networks",
   "pioneer"
  ]
 },
 {
  "name": "bob",
  "programmer": "Bob Kahn",
  "description": "Internet architecture co-author.",
  "tools": [
   "linter",
 "#;

const EMBEDDED_JSON_4: &'static str = r#"  "formatter"
  ],
  "tags": [
   "networks"
  ],
  "environment": {
   "EDITOR": "ed",
   "PAGER": "more"
  }
 },
 {
  "name": "codd",
  "programmer": "Edgar Codd",
  "description": "Relational model founder.",
  "tools": [
   "tracer"
  ],
  "tags": [
   "theory",
   "mathematics"
  ]
 },
 {
  "name": "norbert",
  "programmer": "Norbert Wiener",
  "description": "Cybernetics founder.",
  "tools": [
   "assembler"
  ],
  "tags": [
   "theory"
  ]
 },
 {
  "name": "john2",
  "programmer": "John von Neumann",
  "description": "Stored program architect.",
  "tools": [
   "notebook"
  ],
  "tags": [
   "pioneer",
   "mathematics"
  ]
 },
 {
  "name": "charles",
  "programmer": "Charles Babbage",
  "description": "Difference engine dreamer.",
  "tools": [
   "terminal",
   "multiplexer"
  ],
  "tags": [
   "pioneer",
   "hardware"
  ]
 },
 {
  "name": "blaise",
  "programmer": "Blaise Pascal",
  "description": "Mechanical calculator builder.",
  "tools": [
   "scheduler"
  ],
  "tags": [
   "mathematics"
  ]
 },
 {
  "name": "sage",
  "programmer": "Toolsmith Collective",
  "description": "Persona of the wisdom keeper.",
  "tools": [
   "editor",
   "repl"
  ],
  "tags": [
   "persona"
  ]
 },
 {
  "name": "oracle",
  "programmer": "Toolsmith Collective",
  "description": "Persona of the question answerer.",
  "tools": [
   "compiler",
   "debugger"
  ],
  "tags": [
   "persona"
  ]
 },
 {
  "name": "nomad",
  "programmer": "Toolsmith Collective",
  "description": "Persona of the wandering generalist.",
  "tools": [
   "profiler"
  ],
  "tags": [
   "persona"
  ]
 },
 {
  "name": "scribe",
  "programmer": "Toolsmith Collective",
  "description": "Persona of the meticulous documenter.",
  "tools": [
   "shell",
   "pipes"
  ],
  "tags": [
   "persona"
  ],
  "environment": {
   "EDITOR": "ed",
   "PAGER": "more"
  }
 },
 {
  "name": "forge",
  "programmer": "Toolsmith Collective",
  "description": "Persona of the build pipeline tender.",
  "tools": [
   "linter",
   "formatter"
  ],
  "tags": [
   "persona"
  ]
 },
 {
  "name": "sentry",
  "programmer": "Toolsmith Collective",
  "description": "Persona of the watchful lookout.",
  "tools": [
   "tracer"
  ],
  "tags": [
   "persona"
  ]
 },
 {
  "name": "beacon",
  "programmer": "Toolsmith Collective",
  "description": "Persona of the guide for the lost.",
  "tools": [
   "assembler"
  ],
  "tags": [
   "persona"
  ]
 },
 {
  "name": "drift",
  "programmer": "Toolsmith Collective",
  "description": "Persona of the explorer of edge cases.",
  "tools": [
   "notebook"
  ],
  "tags": [
   "persona"
  ]
 },
 {
  "name": "ember",
  "programmer": "Toolsmith Collective",
  "description": "Persona of the keeper of small flames.",
  "tools": [
   "terminal",
   "multiplexer"
  ],
  "tags": [
   "persona"
  ]
 },
 {
  "name": "quill",
  "programmer": "Toolsmith Collective",
  "description": "Persona of the writer of careful prose.",
  "tools": [
   "scheduler"
  ],
  "tags": [
   "persona"
  ]
 },
 {
  "name": "anvil",
  "programmer": "Toolsmith Collective",
  "description": "Persona of the heavy refactoring hand.",
  "tools": [
   "editor",
   "repl"
  ],
  "tags": [
   "persona"
  ]
 },
 {
  "name": "lattice",
  "programmer": "Toolsmith Collective",
  "description": "Persona of the structural thinker.",
  "tools": [
   "compiler",
   "debugger"
  ],
  "tags": [
   "persona"
  ]
 },
 {
  "name": "prism",
  "programmer": "Toolsmith Collective",
  "description": "Persona of the splitter of concerns.",
  "tools": [
   "profiler"
  ],
  "tags": [
   "persona"
  ],
  "environment": {
   "EDITOR": "ed",
   "PAGER": "more"
  }
 },
 {
  "name": "cairn",
  "programmer": "Toolsmith Collective",
  "description": "Persona of the marker of safe paths.",
  "tools": [
   "shell",
   "pipes"
  ],
  "tags": [
   "persona"
  ]
 },
 {
  "name": "fathom",
  "programmer": "Toolsmith Collective",
  "description": "Persona of the depth-first analyst.",
  "tools": [
   "linter",
   "formatter"
  ],
  "tags": [
   "persona"
  ]
 },
 {
  "name": "zephyr",
  "programmer": "Toolsmith Collective",
  "description": "Pe"#;

const EMBEDDED_JSON_5: &'static str = r#"rsona of the light-touch optimizer.",
  "tools": [
   "tracer"
  ],
  "tags": [
   "persona"
  ]
 },
 {
  "name": "garnet",
  "programmer": "Toolsmith Collective",
  "description": "Persona of the polisher of rough code.",
  "tools": [
   "assembler"
  ],
  "tags": [
   "persona"
  ]
 },
 {
  "name": "onyx",
  "programmer": "Toolsmith Collective",
  "description": "Persona of the dark-mode minimalist.",
  "tools": [
   "notebook"
  ],
  "tags": [
   "persona"
  ]
 },
 {
  "name": "cedar",
  "programmer": "Toolsmith Collective",
  "description": "Persona of the steady dependable grower.",
  "tools": [
   "terminal",
   "multiplexer"
  ],
  "tags": [
   "persona"
  ]
 },
 {
  "name": "flint",
  "programmer": "Toolsmith Collective",
  "description": "Persona of the spark for new projects.",
  "tools": [
   "scheduler"
  ],
  "tags": [
   "persona"
  ]
 },
 {
  "name": "harbor",
  "programmer": "Toolsmith Collective",
  "description": "Persona of the safe place for big merges.",
  "tools": [
   "editor",
   "repl"
  ],
  "tags": [
   "persona"
  ]
 },
 {
  "name": "isle",
  "programmer": "Toolsmith Collective",
  "description": "Persona of the isolated environment keeper.",
  "tools": [
   "compiler",
   "debugger"
  ],
  "tags": [
   "persona"
  ],
  "environment": {
   "EDITOR": "ed",
   "PAGER": "more"
  }
 },
 {
  "name": "joule",
  "programmer": "Toolsmith Collective",
  "description": "Persona of the energy-aware tuner.",
  "tools": [
   "profiler"
  ],
  "tags": [
   "persona"
  ]
 },
 {
  "name": "krait",
  "programmer": "Toolsmith Collective",
  "description": "Persona of the fast strike debugger.",
  "tools": [
   "shell",
   "pipes"
  ],
  "tags": [
   "persona"
  ]
 },
 {
  "name": "lumen",
  "programmer": "Toolsmith Collective",
  "description": "Persona of the clarity bringer.",
  "tools": [
   "linter",
   "formatter"
  ],
  "tags": [
   "persona"
  ]
 },
 {
  "name": "mesa",
  "programmer": "Toolsmith Collective",
  "description": "Persona of the flat architecture fan.",
  "tools": [
   "tracer"
  ],
  "tags": [
   "persona"
  ]
 },
 {
  "name": "nadir",
  "programmer": "Toolsmith Collective",
  "description": "Persona of the worst-case planner.",
  "tools": [
   "assembler"
  ],
  "tags": [
   "persona"
  ]
 },
 {
  "name": "opal",
  "programmer": "Toolsmith Collective",
  "description": "Persona of the iridescent UI tinkerer.",
  "tools": [
   "notebook"
  ],
  "tags": [
   "persona"
  ]
 },
 {
  "name": "pylon",
  "programmer": "Toolsmith Collective",
  "description": "Persona of the infrastructure anchor.",
  "tools": [
   "terminal",
   "multiplexer"
  ],
  "tags": [
   "persona"
  ]
 },
 {
  "name": "quartz",
  "programmer": "Toolsmith Collective",
  "description": "Persona of the precise time keeper.",
  "tools": [
   "scheduler"
  ],
  "tags": [
   "persona"
  ]
 },
 {
  "name": "rook",
  "programmer": "Toolsmith Collective",
  "description": "Persona of the strategic mover.",
  "tools": [
   "editor",
   "repl"
  ],
  "tags": [
   "persona"
  ],
  "environment": {
   "EDITOR": "ed",
   "PAGER": "more"
  }
 },
 {
  "name": "slate",
  "programmer": "Toolsmith Collective",
  "description": "Persona of the clean start advocate.",
  "tools": [
   "compiler",
   "debugger"
  ],
  "tags": [
   "persona"
  ]
 },
 {
  "name": "talon",
  "programmer": "Toolsmith Collective",
  "description": "Persona of the sharp-eyed profiler.",
  "tools": [
   "profiler"
  ],
  "tags": [
   "persona"
  ]
 },
 {
  "name": "umbra",
  "programmer": "Toolsmith Collective",
  "description": "Persona of the shadow deployment runner.",
  "tools": [
   "shell",
   "pipes"
  ],
  "tags": [
   "persona"
  ]
 },
 {
  "name": "vesper",
  "programmer": "Toolsmith Collective",
  "description": "Persona of the quiet evening releaser.",
  "tools": [
   "linter",
   "formatter"
  ],
  "tags": [
   "persona"
  ]
 },
 {
  "name": "warden",
  "programmer": "Toolsmith Collective",
  "description": "Persona of the invariant enforcer.",
  "tools": [
   "tracer"
  ],
  "tags": [
   "persona"
  ]
 },
 {
  "name": "xylem",
  "programmer": "Toolsmith Colle"#;

const EMBEDDED_JSON_6: &'static str = r#"ctive",
  "description": "Persona of the data flow channeler.",
  "tools": [
   "assembler"
  ],
  "tags": [
   "persona"
  ]
 },
 {
  "name": "yarrow",
  "programmer": "Toolsmith Collective",
  "description": "Persona of the healer of flaky tests.",
  "tools": [
   "notebook"
  ],
  "tags": [
   "persona"
  ]
 },
 {
  "name": "zenith",
  "programmer": "Toolsmith Collective",
  "description": "Persona of the peak performance chaser.",
  "tools": [
   "terminal",
   "multiplexer"
  ],
  "tags": [
   "persona"
  ]
 },
 {
  "name": "argon",
  "programmer": "Toolsmith Collective",
  "description": "Persona of the inert stable baseline.",
  "tools": [
   "scheduler"
  ],
  "tags": [
   "persona"
  ],
  "environment": {
   "EDITOR": "ed",
   "PAGER": "more"
  }
 },
 {
  "name": "basalt",
  "programmer": "Toolsmith Collective",
  "description": "Persona of the bedrock library keeper.",
  "tools": [
   "editor",
   "repl"
  ],
  "tags": [
   "persona"
  ]
 },
 {
  "name": "cinder",
  "programmer": "Toolsmith Collective",
  "description": "Persona of the ashes-to-green rebuilder.",
  "tools": [
   "compiler",
   "debugger"
  ],
  "tags": [
   "persona"
  ]
 },
 {
  "name": "delta",
  "programmer": "Toolsmith Collective",
  "description": "Persona of the smallest change finder.",
  "tools": [
   "profiler"
  ],
  "tags": [
   "persona"
  ]
 },
 {
  "name": "echo",
  "programmer": "Toolsmith Collective",
  "description": "Persona of the faithful reproducer of bugs.",
  "tools": [
   "shell",
   "pipes"
  ],
  "tags": [
   "persona"
  ]
 },
 {
  "name": "fable",
  "programmer": "Toolsmith Collective",
  "description": "Persona of the teller of design stories.",
  "tools": [
   "linter",
   "formatter"
  ],
  "tags": [
   "persona"
  ]
 },
 {
  "name": "grove",
  "programmer": "Toolsmith Collective",
  "description": "Persona of the ecosystem tender.",
  "tools": [
   "tracer"
  ],
  "tags": [
   "persona"
  ]
 },
 {
  "name": "helix",
  "programmer": "Toolsmith Collective",
  "description": "Persona of the iterative spiral worker.",
  "tools": [
   "assembler"
  ],
  "tags": [
   "persona"
  ]
 },
 {
  "name": "ingot",
  "programmer": "Toolsmith Collective",
  "description": "Persona of the raw material refiner.",
  "tools": [
   "notebook"
  ],
  "tags": [
   "persona"
  ]
 },
 {
  "name": "jasper",
  "programmer": "Toolsmith Collective",
  "description": "Persona of the calm reader of patches.",
  "tools": [
   "terminal",
   "multiplexer"
  ],
  "tags": [
   "persona"
  ],
  "environment": {
   "EDITOR": "ed",
   "PAGER": "more"
  }
 },
 {
  "name": "kelp",
  "programmer": "Toolsmith Collective",
  "description": "Persona of the deep sea log diver.",
  "tools": [
   "scheduler"
  ],
  "tags": [
   "persona"
  ]
 },
 {
  "name": "loam",
  "programmer": "Toolsmith Collective",
  "description": "Persona of the fertile ground preparer.",
  "tools": [
   "editor",
   "repl"
  ],
  "tags": [
   "persona"
  ]
 },
 {
  "name": "marrow",
  "programmer": "Toolsmith Collective",
  "description": "Persona of the core internals expert.",
  "tools": [
   "compiler",
   "debugger"
  ],
  "tags": [
   "persona"
  ]
 },
 {
  "name": "nimbus",
  "programmer": "Toolsmith Collective",
  "description": "Persona of the cloud drifting deployer.",
  "tools": [
   "profiler"
  ],
  "tags": [
   "persona"
  ]
 },
 {
  "name": "orchard",
  "programmer": "Toolsmith Collective",
  "description": "Persona of the long-term maintainer.",
  "tools": [
   "shell",
   "pipes"
  ],
  "tags": [
   "persona"
  ]
 },
 {
  "name": "pumice",
  "programmer": "Toolsmith Collective",
  "description": "Persona of the abrasive but light critic.",
  "tools": [
   "linter",
   "formatter"
  ],
  "tags": [
   "persona"
  ]
 },
 {
  "name": "quench",
  "programmer": "Toolsmith Collective",
  "description": "Persona of the hotfix cooler.",
  "tools": [
   "tracer"
  ],
  "tags": [
   "persona"
  ]
 },
 {
  "name": "reed",
  "programmer": "Toolsmith Collective",
  "description": "Persona of the flexible under load.",
  "tools": [
   "assembler"
  ],
  "tags": [
   "persona"
  ]
 }
]"#;

/// The embedded personality document.
pub closed spec fn embedded_doc() -> Seq<char> {
    EMBEDDED_JSON_1@ + EMBEDDED_JSON_2@ + EMBEDDED_JSON_3@ + EMBEDDED_JSON_4@ + EMBEDDED_JSON_5@ + EMBEDDED_JSON_6@
}

/// The embedded personality document.
pub fn embedded_json() -> (r: String)
    ensures
        r@ == embedded_doc(),
{
    let mut out = String::from_str(EMBEDDED_JSON_1);
    out.append(EMBEDDED_JSON_2);
    out.append(EMBEDDED_JSON_3);
    out.append(EMBEDDED_JSON_4);
    out.append(EMBEDDED_JSON_5);
    out.append(EMBEDDED_JSON_6);
    out
}

} // verus!
