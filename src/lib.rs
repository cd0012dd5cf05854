// Chooses which prebuilt CMSIS-DSP library variant an ARM Cortex-M target links
// against, from its target identifier, byte order and hardware capabilities.
//
// - `triple`: splitting a hyphen-separated target identifier into tokens
// - `endian`: the byte order and its configuration text
// - `dispatch`: the variant resolver and the library name
// - `laws`: properties of the resolver over all valid targets
pub mod dispatch;
pub mod endian;
pub mod laws;
pub mod triple;
