# rinux

The verified core of a small x86_64 hobby kernel and of the helper that
builds and boots it.

- `src/` — the library, verified with Verus:
  - `checksum`: the ACPI checksum rule (all bytes add up to 0 modulo 256);
  - `bytes`: reading fixed-size fields out of a table image;
  - `acpi`: the root system description pointer (RSDP/XSDP), the common
    table header, the root table (RSDT/XSDT) and its entries;
  - `memory`: canonical virtual addresses and 4 KiB pages (through the
    `x86_64` crate), the kernel heap's pages, the page `malloc` maps a frame at;
  - `logger`: the text of a kernel log line;
  - `booter`: the build profile and options of the boot helper.
- `app/` — the boot helper program and the kernel glue that reads boot
  loader responses, firmware memory and page tables, and hands plain bytes
  and addresses to the library.
- `tests/` — tests of the library on concrete values.
