# u-siem-enricher

A log-enriching component for the µSIEM framework, with its decisions
formally verified.

- `src/` is the verified library:
  - `message`: what the enricher reads from its channels (`Polled`, `Incoming`)
    and why it stops (`EnricherError`);
  - `datasets`: the µSIEM `DatasetHolder` behind trusted wrappers;
  - `component`: how `LogEnricherComponent` answers each read of its local
    and log channels, and the datasets it holds;
  - `pipeline`: the polling loop of the standalone `LogEnricher` as a state
    machine, with its laws;
  - `metrics`: the labels of the enrichment-time histogram;
  - `capabilities`: what the components advertise to the kernel.
- `app/` holds the two µSIEM components themselves: channels, enrichers,
  timing and the floating-point histogram, and the `SiemComponent` impls.
  The enrichment-time metric is always built; there is no build without it.
- `tests/` exercises the library.
