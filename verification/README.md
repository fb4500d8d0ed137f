# profirust

Verified core of a PROFIBUS DP master for the RP2040 microcontroller: the statistics of the DP
master and the decisions of the two PHY drivers.

- `src/dp/statistics.rs`: counters of the DP master and their summary.
- `src/phy/data.rs`: the half-duplex state machine that both PHYs share.
- `src/phy/rp2040.rs`: PHY with a GPIO pin for the direction of the RS-485 transceiver.
- `src/phy/rp2040_pio.rs`: PHY with a PIO state machine for the direction.
- `src/phy/direction_program.rs`: the PIO program, assembled with the `pio` crate. It watches the
  TX line and switches the direction without the processor.
- `src/phy/laws.rs`, `src/phy/direction_laws.rs`: what holds over whole transmissions,
  receptions and runs of the PIO program.
- `src/baudrate.rs`, `src/time.rs`, `src/decimal.rs`: bus timing, time and number formatting.
- `app/`: the drivers that carry out the decisions on the hardware.
