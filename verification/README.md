# financial_simulator

A life-long financial strategy simulator: it anchors a plan on the assets
reached after years of monthly investing, infers the implied annual return,
and projects the future (keep investing, stop, or withdraw an
inflation-adjusted amount) along trajectories for every whole return rate
from 0% to 20%, drawn on a logarithmic chart.

- `src/` is the verified library (Verus): formatting of amounts in 元/萬/億
  with thousands separators, return-rate labels and fixed-width text rows,
  the plan of trajectories and the month timeline, the month-by-month rules
  of a trajectory, the age settings and their input handling, the chart's
  layout texts, and the summary sentence.
- `app/` is the web front end (Leptos, Plotly): browser storage, the
  floating-point simulation and rate inference, and the page itself.
- `tests/` exercises the library on concrete values.
