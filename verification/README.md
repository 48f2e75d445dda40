# early_alloc

A verified early-boot memory allocator, with the guest-loading and
hypervisor-exit logic of a small kernel around it.

- `src/bump.rs`: `EarlyAllocator`, one region that hands out bytes forward
  and pages backward; each method is specified by an outcome function over
  the abstract `ArenaState`.
- `src/bump_laws.rs`: laws over those outcomes (no overlap between blocks,
  pages never reclaimed and used pages never fall, release of the last block
  reclaims the bytes area, k allocations undone by k releases restore the
  state, accounting, refusals change nothing).
- `src/align.rs`, `src/layout.rs`: power-of-two alignment and block layouts.
- `src/elf_image.rs`: reading loadable program headers of an ELF image,
  with the `elf` crate behind trusted wrappers.
- `src/loader.rs`: page arithmetic and segment placement.
- `src/guest.rs`: decisions of the hypervisor on guest entry and exits, with
  the `riscv` crate's CSR decoding behind trusted wrappers.
- `app/`: the `axallocator` trait implementations, file I/O for loading
  user programs, and the hypervisor run loop.
