# quinn-holepunch

QUIC connections between peers behind routers, through a rendevouz server.

On a public machine:

    quinn-holepunch rendevouz

On a machine behind a router:

    quinn-holepunch listen -r RENDEVOUZ_IP:3033 -p foo

On another machine behind another router:

    quinn-holepunch connect-rendevouz -r RENDEVOUZ_IP:3033 -p foo

## Layout

- `src/` is the library: the messages and their bytes, what the server lists and answers, the
  client's side of announcing and asking, and the exchange of datagrams that opens the routers.
  Every function states what it does in a contract, and Verus proves it. The calls into other
  crates stand behind small functions whose doc comments say what is taken on trust.
- `app/` is the program around it: sockets, QUIC streams, tasks, and the command line.
- `tests/` runs the library on concrete values.
