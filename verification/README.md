# qtrade_indicators

Technical analysis indicators for trading, with their decision logic verified by Verus.

- `src/` is the verified library: the input checks of every indicator (which error
  each input is refused with, in which order), Williams Fractals, and the band and
  trend logic of Supertrend. Prices enter the library as the bit patterns of IEEE-754
  binary64 values; `binary64` orders them exactly as the hardware comparisons do.
- `app/` holds the `f64` arithmetic of the indicators (median price, true range, the
  moving averages, ATR, MACD and the raw Supertrend bands) around the library's checks.
- `tests/` runs the library on concrete inputs.
