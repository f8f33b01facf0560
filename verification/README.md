# lib: verified checking of Litex atomic facts

This crate checks atomic facts of the Litex proof language: orders between
numbers and expressions, set membership and set relations, type predicates
on sets, inequalities and equalities, chains and conjunctions, and instances
of known universal facts. Every check is written in Verus and proved against
a specification of what it returns.

Layout of `src/`:

- `decimal`, `digit_arith`, `int_literal`, `div_elimination`: exact decimal
  comparison, digit arithmetic, 128-bit integer literals, and ordering of
  quotients of literals.
- `obj`, `fact`, `runtime`: objects, atomic facts, environments and results.
- `builtin`, `order_algebra`, `algebra_order`, `algebra_special`, `equality`,
  `equality_extra`, `abs_order`, `order_normalize`, `standard_sets`,
  `order_extra`, `lower_bound`, `log_order`, `not_equal_extra`, `in_extra`:
  the builtin rules.
- `known_forall_match`, `arg_map`, `subst`, `full_check`, `pipeline`: matching
  a fact against known universal facts and checking their requirements.
- `compound`, `not_exist`, `strategy`, `by_syntax`, `known_forall_profile`:
  chains and conjunctions, universal facts derived from negated existentials,
  strategies, literal equality, and search profiling.

`app/` reads the environment variable that switches profiling on.

## What is not covered

The checker answers "unknown" where a fact needs any of the following:

- Numbers: literals are compared by value, and sums, differences and
  products of integer literals are evaluated exactly (in the 128-bit
  range); an expression with a decimal literal or a quotient inside is not
  evaluated, and a name is not resolved to a number through known
  equalities. Known equality is a known `a = b` in either direction, not a
  class of equal objects.
- Objects: struct instances and field access, anonymous functions, function
  sets and set-builder sets are not part of `Obj`; function objects and
  power sets are, but no membership rule reads them.
- Equality: the rules for `abs`, powers, logarithms, `mod`, sums and
  products over ranges, square roots, tuples built from their projections,
  projections of a known tuple equality, user-defined antisymmetric
  relations, and objects reached through struct fields.
- Membership: sums and products over ranges, arithmetic expressions in the
  negative sets other than products, function ranges, power sets, set
  builders and structs.
- Inequality: `a^2 + b^2 != 0` read off a known `a != 0 or b != 0`
  (the disjunction itself is not consulted; each component is).
- Order: `(-1) * x` against 0, and `a <= b` from a known `a^n <= b^n`.
- User predicates are never unfolded into their definitions; a conjunction
  is not matched against known universal facts whose conclusion is a
  conjunction (only each conjunct is checked); and the search through known
  universal facts is a linear scan (no index by the shape of the arguments).
- Checks have no cache and no well-definedness test, and the depth of nested
  subgoals is bounded by `VerifyState::subgoal_depth`: a subgoal that is a
  known fact holds at any depth, but one that needs a rule of its own fails
  at depth 0, and the requirements of a known universal fact are checked one
  level down.
- Strategies are checked by their own entry point, not by the full check of
  an atomic fact.
- A result names the rule or the kind of fact that settled it; it carries no
  message and no record of the steps below it.
