# Majorana WebGPU wave simulator — verified core

`src/` is a Verus library holding the exact logic of the simulator:

- `physics/`: the Majorana Dirac basis (`J`, `alpha^x,y,z`, `-i beta`) as
  signed permutations with their algebra proved (`J^2 = -I`, `J^T = -J`,
  `[J, alpha^i] = 0`, `{J, beta} = 0`, the Clifford relations, norm
  preservation, skewness of the generator), the FFT mode grid, the spectral
  bound and the mass-step profile;
- `spatial_majorana_field.rs`: the cubic grid and its storage order;
- `gpu/`: workgroup counts, buffer sizes, the little-endian uniform layouts,
  the ping-pong bookkeeping of the Chebyshev recurrence and the command plan
  of one propagation step, with a proof that the plan feeds every kernel the
  Chebyshev vectors the three-term recurrence needs;
- the frame schedule, the mass-boundary slider state, drag tracking,
  diagnostics counters, the query-string flag and the start-up messages.

`app/` is the browser program around it: WebGPU objects and dispatches, the
DOM, and the floating-point numerics (J-DFT, Bessel coefficients, tail
bounds, Gaussian field). It embeds its WGSL kernels as text.
