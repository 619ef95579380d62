# egui_charts (verified core)

The verified core of an interactive OHLCV chart widget for egui.

- `src/` — the library, verified with Verus:
  - `color` — colors as premultiplied RGBA bytes, premultiplied as egui does.
  - `order_lines` — order identifiers, sides, line types, order lines, the
    overlay that manages them by identifier, click resolution and colors.
  - `markers` — marker shapes and positions.
  - `cadence` — the typical spacing between bars (median gap, in whole
    milliseconds) and snapping it to the nearest timeframe preset. Bar times
    are instants in nanoseconds since the Unix epoch, within the range a
    UTC date-time can hold.
  - `labels` — axis label emphasis, the extended bar index over which
    time-axis marks are generated, and locating a time in it.
  - `crosshair` — which visible candle a bar index falls on, and the time
    format of the crosshair label.
  - `tooltip` — which fields a bar tooltip shows.
  - `widget` — the chart's view bookkeeping (visible range requests,
    tracking/zoom modes, one-frame interaction results, live-edge following)
    and exact lookup of rendered bar positions; click, right-click and
    indicator-pane click resolution; chart type and data-validation switch.
  - `selection` — which element a click on the main chart picks (overlay
    indicators above the price series above volume) and which selection
    handles the main chart draws.
  - `background` — how the chart background is filled for each style.
- `app/` — the floating-point time scale, the serializable marker type,
  order-line culling and color conversion, background painting, conversion
  of date-times to nanosecond instants, and a chart view that keeps data,
  time scale and view state in step.
- `tests/` — tests of the library.
