# food_planner

A weekly South Indian meal planner for a Chennai family, written in Verus.

The library (`src/`) is verified:

- `calendar` — dates as day numbers, weekdays, the next Monday, parsing of
  `YYYY-MM-DD` (chrono does the calendar work behind trusted wrappers);
- `models` — meals, ingredients, days, weeks, shopping list lines, with their
  views;
- `templates` — the built-in breakfasts, snacks, lunches and dinners;
- `planner` — the offline week planner and its shopping list (totals per
  ingredient, sorted by category heading and name);
- `quantity` — quantity numerals read as exact signed decimals of any
  length, summed exactly and written back as the shortest numeral;
- `config`, `ai`, `display` — settings, the plan's source, the Copilot
  request and reply text, and the choices made when a plan is shown;
- `laws`, `plan_laws` — what holds of every plan and every shopping list.

`app/` is the command line: argument handling, the settings file, the HTTP
call to the Copilot API, JSON and coloured output.
