# ocpp_central

An OCPP 1.6 central system for a single wallbox at home. It talks to the charge point over
a websocket, keeps track of the requests it sends and of the running transactions, and
charges smartly: with the current that the PV overproduction allows, or in the cheapest
period of the electricity price chart. While the car charges, the home battery is kept from
discharging into it.

## Layout

- `src/` is the verified library (Verus). Every function carries a contract.
  - `ocpp_types`, `messages`, `builders`, `requests`: OCPP-J frames and the requests the
    central system sends.
  - `charge_point_state`: the queue of requests (one in flight at a time), the running
    transactions and the installed charging profiles.
  - `handlers`, `central_system`: answers to the charge point's requests and the
    bookkeeping of its responses.
  - `meter_values`: which sampled value of a MeterValues request becomes which measured
    value (the numbers themselves are read by the caller).
  - `hooks`: the smart charging decisions on meter values, authorizations and status
    changes.
  - `digest_auth`, `fronius`, `awattar`: the HTTP digest authentication and the data
    exchanged with the inverter, and a stand-in for the price service.
  - `text`: decimal rendering and parsing and the string operations the above need.
  - `laws`: properties that span several operations, proved.
- `app/` is the program around it: configuration, logging, the websocket server, JSON, the
  database, the HTTP calls, and the floating point arithmetic on measured quantities.
- `tests/` runs the library on concrete values.

Currents in the library are integers in tenths of an ampere and points in time are
nanoseconds since the Unix epoch in an `i128`, wide enough for every date that chrono
represents (the price chart gives milliseconds).
