# cert_manager_https

Watches for usable cert-manager certificates in a Kubernetes cluster and uses them to serve an axum
router over TLS.

`src/` is a Verus library: what the server decides, with proofs.

- `accept`: which acceptor upgrades the next connection, and what a poll of the stream of upgraded
  connections does next. The acceptor that expires last is used, and the stream never ends.
- `controller`: what reconciling a certificate does next, and what its secret must hold.
- `expiration`, `pem`, `secret`, `tls`: when a certificate expires, decoding certificates and keys,
  the data of a secret, and what a server presents.
- `history`: what holds over many polls. Every connection accepted gives one item in the end, and
  every connection served has completed a handshake with the acceptor of a usable certificate.
- `server`, `serve`: which connections are served, where to listen, what to report.

Parsing dates is left to chrono, decoding PEM to rustls-pki-types and building a server config to
rustls; the functions that call them say what is taken on trust.

`app/` is the server itself: sockets, tasks and the client of the cluster.

To run it, cert-manager must be installed in the cluster.
