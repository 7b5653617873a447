# rdm_rs

Encoding and decoding of RDM (Remote Device Management, ANSI E1.20) frames and their
parameter data, with contracts proved by Verus.

Layout of `src/rdm`:

- `common.rs`: device identifiers, sub-device identifiers, command classes.
- `parameter/`: parameter identifiers and the data types of the E1.20, E1.33, E1.37-1,
  E1.37-2 and E1.37-7 parameters; `request.rs` and `response.rs` in each standard's directory
  hold the parameter data of its requests and responses, `lists.rs` the bounded lists.
- `request.rs`, `response.rs`: request and response frames. Their laws state that decoding the
  bytes of a frame gives the frame back.
- `field_errors.rs`: the error reported for response parameter data in which a field holds a
  value that its type does not name.
- `mod.rs`: frames of either kind, and views of the bytes of one frame.
- `device.rs`: what a controller learns of a responder from its responses.
- `custom.rs`: parameters that users define, and the requests that carry them.
- `messages.rs`, `text.rs`: the texts that describe errors, refusals and status messages.
- `wire.rs`, `utils.rs`: fixed size wire forms, checksums and byte helpers.

Strings and lists are held in fixed capacity buffers, so that frames need no allocation.

Response parameter data covers the parameters whose identifiers `ParameterId` names: those of
E1.20, E1.33, E1.37-1, E1.37-2 and E1.37-7. Responses to parameters of later message sets (such
as enum labels, NACK descriptions, serial numbers or JSON metadata) have no identifier there, so
their data is kept as raw bytes, in the manufacturer specific or unsupported variants of
`ResponseParameterData`.
