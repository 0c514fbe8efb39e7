# comment_ranking

A simulation of how well different comment-sorting methods rank the comments
of a topic, with its decision logic verified by Verus.

- `src/` is the verified library: the configuration enums (`methods`), vote
  tallies (`votes`), which sorting formula applies to a comment
  (`sorting_score`), the weight of each position of a ranked list and the
  bounds on a ranking's cumulative score (`position_weights`), how many
  comments a user reads (`interaction`) and the control state of one topic
  (`topic`).
- `app/` is the program: it draws the random qualities and scores, works out
  the floating-point formulas the library selects, runs the topics on threads
  and writes the results as CSV files.
- `tests/` exercises the library.
