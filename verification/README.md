# oxideav_nsf

A verified player core for NSF tunes, the music of the NES as the machine code
that plays it: the file formats (NSF, NSF2, NSFe), the 6502 CPU, the bus with
its DMAs, the 2A03 APU and the six expansion sound chips.

`src/` is the library; Verus verifies all of it.

| Modules                                                        | What they hold                          |
|----------------------------------------------------------------|-----------------------------------------|
| `header`, `nsfe`, `text`, `ratio`                              | file formats                            |
| `opcodes`, `cpu`, `execute`, `step`                            | the CPU                                 |
| `bus`, `walk`, `instruction`, `loading`, `dma`, `timer`        | the bus, its DMAs and its timer         |
| `apu`, `frame_timing`, `pulse`, `triangle`, `noise`, `dmc`, `envelope`, `length`, `mixe_device` | the APU |
| `expansion`, `vrc6`, `vrc7`, `opll`, `fds`, `mmc5`, `n163`, `s5b` | the expansion chips                  |
| `laws`, `cpu_laws`, `frame_laws`, `coherence`, `dma_laws`, `noise_period` | what holds of several functions at once |

The library computes with integers. `app/` holds what needs floating point, the
analog mixer and rates in hertz, and the texts of the errors.

A device has a specification of one CPU cycle. A function that lets time pass
promises the state after that many cycles, and a law says that it does not
matter how the time is cut into calls.

The VRC7 knows what its FM voices are told to play and when a sample of them
comes due. Making the sample is left to the host: `Vrc7::tick_to_sample` stops
at each one, and `Vrc7::latch_sample` takes the answer.
